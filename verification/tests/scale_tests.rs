use typewriter::scale::{fit_size, get_centered_rect, Placement};

#[test]
fn fit_keeps_small_block() {
    assert_eq!(fit_size(100, 50, 1302, 768), (100, 50));
    assert_eq!(fit_size(1302, 768, 1302, 768), (1302, 768));
    assert_eq!(fit_size(0, 0, 0, 0), (0, 0));
}

#[test]
fn fit_shrinks_by_width_ratio() {
    // width ratio 2, height ratio 1.5
    assert_eq!(fit_size(2000, 900, 1000, 600), (1000, 450));
    // rounded down
    assert_eq!(fit_size(3, 2, 2, 2), (2, 1));
}

#[test]
fn fit_shrinks_by_height_ratio() {
    // width ratio 1.5, height ratio 2
    assert_eq!(fit_size(900, 2000, 600, 1000), (450, 1000));
    // equal ratios go by height
    assert_eq!(fit_size(200, 200, 100, 100), (100, 100));
    // only the height overshoots
    assert_eq!(fit_size(10, 1000, 100, 10), (0, 10));
}

#[test]
fn fit_with_empty_container() {
    assert_eq!(fit_size(5, 0, 0, 0), (0, 0));
    assert_eq!(fit_size(5, 7, 0, 3), (0, 0));
    assert_eq!(fit_size(5, 7, 3, 0), (0, 0));
}

#[test]
fn fit_never_enlarges() {
    let sides = [0u32, 1, 2, 3, 7, 100, 1302, 4000, u32::MAX];
    for &rw in &sides {
        for &rh in &sides {
            for &cw in &sides {
                for &ch in &sides {
                    let (w, h) = fit_size(rw, rh, cw, ch);
                    assert!(w <= cw && h <= ch && w <= rw && h <= rh);
                }
            }
        }
    }
}

#[test]
fn rect_is_anchored() {
    let r = get_centered_rect(100, 50, 1302, 768);
    assert_eq!(r, Placement { x: 30, y: 30, width: 100, height: 50 });
    let r = get_centered_rect(2604, 768, 1302, 768);
    assert_eq!(r, Placement { x: 30, y: 30, width: 1302, height: 384 });
}

#[test]
fn fit_keeps_the_proportions() {
    let sides = [1u64, 2, 3, 7, 100, 768, 1302, 4000, 65535];
    for &rw in &sides {
        for &rh in &sides {
            for &cw in &sides {
                for &ch in &sides {
                    let (w, h) = fit_size(rw as u32, rh as u32, cw as u32, ch as u32);
                    let (w, h) = (w as u64, h as u64);
                    if rw <= cw && rh <= ch {
                        assert_eq!((w, h), (rw, rh));
                    } else if rw * ch > rh * cw {
                        assert_eq!(w, cw);
                        assert!(h * rw <= rh * w && rh * w < (h + 1) * rw);
                    } else {
                        assert_eq!(h, ch);
                        assert!(w * rh <= rw * h && rw * h < (w + 1) * rh);
                    }
                }
            }
        }
    }
}

use agman_tui::layout::{centered_rect, split, Area, Limit};

fn area(x: u16, y: u16, width: u16, height: u16) -> Area {
    Area { x, y, width, height }
}

/// The nearest cell to a place in hundredths of a cell.
fn nearest(hundredths: u32) -> u16 {
    ((hundredths + 50) / 100) as u16
}

#[test]
fn dialogs_stand_in_the_middle() {
    assert_eq!(centered_rect(60, 40, area(0, 0, 100, 50)), area(20, 15, 60, 20));
    assert_eq!(centered_rect(50, 30, area(0, 0, 81, 24)), area(20, 8, 41, 8));
    assert_eq!(centered_rect(80, 80, area(3, 2, 7, 5)), area(4, 3, 5, 4));
    assert_eq!(centered_rect(70, 70, area(0, 0, 0, 0)), area(0, 0, 0, 0));
}

#[test]
fn shares_are_rounded_to_the_nearest_cell() {
    for x in [0u16, 1, 17] {
        for width in 0..220u16 {
            for percent in [0u16, 1, 28, 33, 35, 40, 50, 52, 60, 70, 80, 99, 100] {
                let side = (100 - percent) / 2;
                let start = 100 * x as u32 + side as u32 * width as u32;
                let end = start + percent as u32 * width as u32;
                let middle = centered_rect(percent, 100, area(x, 4, width, 9));
                assert_eq!(middle.x, nearest(start), "{percent} of {width} from {x}");
                assert_eq!(middle.x + middle.width, nearest(end), "{percent} of {width} from {x}");
                assert_eq!((middle.y, middle.height), (4, 9));
            }
        }
    }
}

#[test]
fn lengths_are_kept_and_a_minimum_takes_the_rest() {
    for height in 9..220u16 {
        let limits = vec![Limit::Length(3), Limit::Min(5), Limit::Length(1)];
        let parts = split(true, &limits, area(2, 6, 10, height));
        assert_eq!(
            parts,
            vec![
                area(2, 6, 10, 3),
                area(2, 9, 10, height - 4),
                area(2, 5 + height, 10, 1),
            ]
        );
        let limits = vec![Limit::Min(0), Limit::Length(4), Limit::Length(2)];
        let parts = split(false, &limits, area(2, 6, height, 10));
        assert_eq!(
            parts,
            vec![
                area(2, 6, height - 6, 10),
                area(height - 4, 6, 4, 10),
                area(height, 6, 2, 10),
            ]
        );
    }
}

#[test]
fn percentages_lengths_and_a_minimum_go_together() {
    for width in 40..220u16 {
        let limits = vec![Limit::Percentage(33), Limit::Length(7), Limit::Min(1)];
        let parts = split(false, &limits, area(5, 0, width, 3));
        let first = nearest(500 + 33 * width as u32);
        let second = nearest(500 + 33 * width as u32 + 700);
        assert_eq!(
            parts,
            vec![
                area(5, 0, first - 5, 3),
                area(first, 0, second - first, 3),
                area(second, 0, 5 + width - second, 3),
            ]
        );
    }
}

#[test]
fn what_is_not_asked_for_is_left_over() {
    let limits = vec![Limit::Length(3), Limit::Percentage(25)];
    assert_eq!(
        split(true, &limits, area(0, 1, 8, 20)),
        vec![area(0, 1, 8, 3), area(0, 4, 8, 5)]
    );
    assert_eq!(split(true, &Vec::new(), area(0, 1, 8, 20)), Vec::<Area>::new());
}

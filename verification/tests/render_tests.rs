use conway_life::grid::Game;
use conway_life::render::{banner_ops, BannerLine, DrawOp, LIVE_GLYPH};

#[test]
fn painting_twice_gives_the_same_instructions() {
    // Idempotent painting: the same unchanged grid paints as the same
    // sequence of draw instructions both times.
    let mut g = Game::new_filled(4, 3, false);
    g.set_cell(0, 0, true);
    g.set_cell(2, 3, true);
    let first = g.paint_state();
    let second = g.paint_state();
    assert_eq!(first, second);
}

#[test]
fn painting_emits_goto_and_glyph_for_each_live_cell() {
    // Live cells paint in row-major order at 1-based screen positions;
    // dead cells emit nothing beyond the initial clear.
    let mut g = Game::new_filled(2, 2, false);
    g.set_cell(0, 1, true);
    g.set_cell(1, 0, true);
    let ops = g.paint_state();
    assert_eq!(
        ops,
        vec![
            DrawOp::ClearAll,
            DrawOp::Goto(2, 1),
            DrawOp::Glyph(LIVE_GLYPH),
            DrawOp::Goto(1, 2),
            DrawOp::Glyph(LIVE_GLYPH),
        ]
    );
}

#[test]
fn painting_a_dead_grid_only_clears() {
    let g = Game::new_filled(3, 2, false);
    assert_eq!(g.paint_state(), vec![DrawOp::ClearAll]);
}

#[test]
fn banner_centers_each_line() {
    let ops = banner_ops(40, 12, 22, 15, 33);
    assert_eq!(
        ops,
        vec![
            DrawOp::ClearAll,
            DrawOp::Bold,
            DrawOp::Goto(9, 4),
            DrawOp::Text(BannerLine::Title),
            DrawOp::ResetStyle,
            DrawOp::Goto(12, 6),
            DrawOp::Text(BannerLine::Author),
            DrawOp::Goto(3, 8),
            DrawOp::Text(BannerLine::Instructions),
            DrawOp::HideCursor,
        ]
    );
}

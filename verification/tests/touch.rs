use openstrike::touch::{ButtonTick, ScreenButtons, TouchButtons};

#[test]
fn subframe_release_keeps_one_reload_and_jump_without_held_fire() {
    let mut input = TouchButtons::new();
    input.update(7);
    input.update(0);
    let first = input.tick();
    assert!(first.reload && first.jump && !first.fire);
    let second = input.tick();
    assert!(!second.reload && !second.jump);
    input.update(4);
    assert!(input.tick().jump);
    input.update(4);
    assert!(!input.tick().jump);
}

#[test]
fn clear_forgets_levels_and_pending_edges() {
    let mut input = TouchButtons::new();
    input.update(15);
    input.clear();
    let tick = input.tick();
    assert_eq!(input.buttons, 0);
    assert!(!tick.fire && !tick.reload && !tick.jump && !tick.walk);
}

#[test]
fn levels_follow_the_latest_report_and_unknown_bits_are_dropped() {
    let mut input = TouchButtons::new();
    input.update(1 | 8 | 16);
    assert_eq!(input.buttons, 9);
    let tick = input.tick();
    assert!(tick.fire && tick.walk && !tick.reload && !tick.jump);
    input.update(2);
    input.update(2);
    let tick = input.tick();
    assert!(tick.reload && !tick.fire);
    assert!(!input.tick().reload);
}

fn idle() -> ButtonTick {
    ButtonTick { fire: false, walk: false, reload: false, jump: false }
}

#[test]
fn release_retains_reload_edge_but_clears_holds() {
    let mut touch = ScreenButtons::new();
    touch.update(15);
    touch.update(0);
    let mut tick = idle();
    touch.apply(&mut tick);
    assert!(tick.reload);
    assert!(!tick.fire && !tick.jump && !tick.walk);
    let mut tick = idle();
    touch.apply(&mut tick);
    assert!(!tick.reload);
}

#[test]
fn lower_screen_holds_add_to_the_pad() {
    let mut touch = ScreenButtons::new();
    touch.update(8 | 4);
    let mut tick = idle();
    tick.fire = true;
    touch.apply(&mut tick);
    assert!(tick.fire && tick.walk && tick.jump && !tick.reload);
    let mut tick = idle();
    touch.apply(&mut tick);
    assert!(tick.jump && tick.walk && !tick.fire);
    touch.update(2);
    touch.update(2);
    let mut tick = idle();
    touch.apply(&mut tick);
    assert!(tick.reload);
    let mut tick = idle();
    touch.apply(&mut tick);
    assert!(!tick.reload);
}

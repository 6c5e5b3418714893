use vstd::prelude::*;

verus! {

/// Frames during which the objective text brightens, then as many during
/// which it dims.
pub const FADE_FRAMES: u32 = 125;

/// What becomes of the objective text in a frame.
#[derive(Clone, Copy, Debug, PartialEq, Eq, Structural)]
pub enum ObjectiveStep {
    Brighten,
    Dim,
    Despawn,
}

/// One frame of the objective text: it goes away when escape or the pause key
/// was just pressed; otherwise it brightens for `FADE_FRAMES` frames, dims for
/// as many, then goes away. The timer restarts whenever the text goes away.
pub fn update_text(timer: &mut u32, pause_pressed: bool) -> (step: ObjectiveStep)
    requires
        *old(timer) <= 2 * FADE_FRAMES,
    ensures
        *final(timer) <= 2 * FADE_FRAMES,
        pause_pressed ==> step == ObjectiveStep::Despawn && *final(timer) == 0,
        !pause_pressed && *old(timer) < FADE_FRAMES ==> step == ObjectiveStep::Brighten
            && *final(timer) == *old(timer) + 1,
        !pause_pressed && FADE_FRAMES <= *old(timer) < 2 * FADE_FRAMES ==> step == ObjectiveStep::Dim
            && *final(timer) == *old(timer) + 1,
        !pause_pressed && *old(timer) == 2 * FADE_FRAMES ==> step == ObjectiveStep::Despawn
            && *final(timer) == 0,
{
    if pause_pressed {
        *timer = 0;
        ObjectiveStep::Despawn
    } else if *timer < FADE_FRAMES {
        *timer = *timer + 1;
        ObjectiveStep::Brighten
    } else if *timer < 2 * FADE_FRAMES {
        *timer = *timer + 1;
        ObjectiveStep::Dim
    } else {
        *timer = 0;
        ObjectiveStep::Despawn
    }
}

} // verus!

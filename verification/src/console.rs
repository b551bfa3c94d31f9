use vstd::prelude::*;

verus! {

/// Clicks on the football icon that unlock the debug controls (manual score
/// and time control).
pub const UNLOCK_CLICKS: u32 = 5;

/// What a click on the football icon tells the operator.
#[derive(Debug, Clone, Copy, PartialEq, Eq, Structural)]
pub enum UnlockNotice {
    /// This click unlocked the debug controls.
    Unlocked,
    /// This many more clicks are needed.
    Remaining(u32),
    /// Already unlocked: nothing to say.
    Silent,
}

/// The hidden debug controls and the clicks counted towards unlocking them.
#[derive(Debug, Clone, Copy)]
pub struct DebugUnlock {
    pub clicks: u32,
    pub unlocked: bool,
}

impl DebugUnlock {
    /// Locked, no clicks yet.
    pub fn new() -> (r: DebugUnlock)
        ensures
            r.clicks == 0,
            !r.unlocked,
    {
        DebugUnlock { clicks: 0, unlocked: false }
    }

    /// The state after one more click.
    pub open spec fn after_click(self) -> DebugUnlock {
        let clicks = (self.clicks + 1) as u32;
        DebugUnlock { clicks, unlocked: self.unlocked || clicks >= UNLOCK_CLICKS }
    }

    /// What one more click tells the operator.
    pub open spec fn click_notice(self) -> UnlockNotice {
        let clicks = self.clicks + 1;
        if self.unlocked {
            UnlockNotice::Silent
        } else if clicks >= UNLOCK_CLICKS {
            UnlockNotice::Unlocked
        } else {
            UnlockNotice::Remaining((UNLOCK_CLICKS - clicks) as u32)
        }
    }

    /// One click on the football icon.
    pub fn click(&mut self) -> (r: UnlockNotice)
        requires
            old(self).clicks < u32::MAX,
        ensures
            *final(self) == old(self).after_click(),
            r == old(self).click_notice(),
    {
        self.clicks = self.clicks + 1;
        if self.clicks >= UNLOCK_CLICKS && !self.unlocked {
            self.unlocked = true;
            UnlockNotice::Unlocked
        } else if !self.unlocked {
            UnlockNotice::Remaining(UNLOCK_CLICKS - self.clicks)
        } else {
            UnlockNotice::Silent
        }
    }
}

/// From a fresh start the first four clicks count down 4, 3, 2, 1 and the
/// fifth unlocks the debug controls.
pub proof fn law_fifth_click_unlocks(d: DebugUnlock)
    requires
        d.clicks == 0,
        !d.unlocked,
    ensures
        d.click_notice() == UnlockNotice::Remaining(4),
        d.after_click().click_notice() == UnlockNotice::Remaining(3),
        d.after_click().after_click().click_notice() == UnlockNotice::Remaining(2),
        d.after_click().after_click().after_click().click_notice() == UnlockNotice::Remaining(1),
        !d.after_click().after_click().after_click().after_click().unlocked,
        d.after_click().after_click().after_click().after_click().click_notice()
            == UnlockNotice::Unlocked,
        d.after_click().after_click().after_click().after_click().after_click().unlocked,
{
}

/// Once unlocked, the debug controls stay unlocked and further clicks are
/// silent.
pub proof fn law_unlock_is_permanent(d: DebugUnlock)
    requires
        d.unlocked,
    ensures
        d.after_click().unlocked,
        d.click_notice() == UnlockNotice::Silent,
{
}

/// How long a first press of the reset button stays armed, in milliseconds.
pub const RESET_CONFIRM_MILLIS: u128 = 3000;

/// What a press of the reset button does.
#[derive(Debug, Clone, Copy, PartialEq, Eq, Structural)]
pub enum ResetPress {
    /// Arm the button: a second press within the window resets the match.
    Arm,
    /// Reset the match.
    Reset,
}

/// The reset button is armed: it was pressed less than three seconds ago.
pub open spec fn is_reset_armed(since_armed_millis: Option<u128>) -> bool {
    since_armed_millis matches Some(ms) && ms < RESET_CONFIRM_MILLIS
}

/// What a press of the reset button does, armed or not.
pub open spec fn reset_press_spec(armed: bool) -> ResetPress {
    if armed {
        ResetPress::Reset
    } else {
        ResetPress::Arm
    }
}

/// Whether the reset button is armed, given the milliseconds since it was
/// armed (none where it is not): armed for less than three seconds.
pub fn reset_armed(since_armed_millis: Option<u128>) -> (r: bool)
    ensures
        r == is_reset_armed(since_armed_millis),
{
    match since_armed_millis {
        Some(ms) => ms < RESET_CONFIRM_MILLIS,
        None => false,
    }
}

/// A press of the reset button: it resets when armed and arms otherwise.
pub fn reset_press(armed: bool) -> (r: ResetPress)
    ensures
        r == reset_press_spec(armed),
{
    if armed {
        ResetPress::Reset
    } else {
        ResetPress::Arm
    }
}

/// The reset button's caption: asks for the confirming press while armed.
pub fn reset_button_label(armed: bool) -> (r: &'static str)
    ensures
        r@ == (if armed {
            "再点确认"@
        } else {
            "重置"@
        }),
{
    if armed {
        "再点确认"
    } else {
        "重置"
    }
}

/// A reset needs two presses: the first only arms the button, and the
/// second resets the match only within three seconds of the first.
pub proof fn law_reset_needs_confirmation(ms: u128)
    ensures
        reset_press_spec(is_reset_armed(None)) == ResetPress::Arm,
        ms < RESET_CONFIRM_MILLIS ==> reset_press_spec(is_reset_armed(Some(ms)))
            == ResetPress::Reset,
        ms >= RESET_CONFIRM_MILLIS ==> reset_press_spec(is_reset_armed(Some(ms)))
            == ResetPress::Arm,
{
}

} // verus!

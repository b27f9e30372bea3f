//! The indicator itself: what it shows, and how it answers the events that
//! its host delivers.

use crate::uptime::{
    calculate_uptime, full_fallback, short_fallback, short_uptime, short_uptime_text, uptime_text,
    ReadError, UptimeReading,
};
use vstd::prelude::*;

verus! {

/// Names one popup window.
#[derive(Clone, Copy, Debug, PartialEq, Eq, Structural)]
pub struct PopupId {
    pub number: u64,
}

/// Whether the popup is on screen, and under which name.
#[derive(Clone, Copy, Debug, PartialEq, Eq, Structural)]
pub enum PopupState {
    PopupClosed,
    PopupOpen(PopupId),
}

/// An event that the host delivers to the indicator.
#[derive(Clone, Copy, Debug, PartialEq, Eq, Structural)]
pub enum Message {
    /// The refresh timer fired.
    Tick,
    /// The icon was pressed.
    Toggle,
    /// The host closed the popup of this name by itself.
    PopupClosedByHost(PopupId),
}

/// Work that the indicator asks of its host.
#[derive(Clone, Copy, Debug, PartialEq, Eq, Structural)]
pub enum HostCommand {
    /// Open a popup under this name.
    RequestPopup(PopupId),
    /// Take the popup of this name off the screen.
    DestroyPopup(PopupId),
}

/// The icon in the panel: a label that can be pressed.
#[derive(Debug, PartialEq, Eq)]
pub struct IconView {
    pub label: String,
    pub on_press: Message,
}

/// The popup's content: a title line and a line of text under it.
#[derive(Debug, PartialEq, Eq)]
pub struct PopupView {
    pub title: String,
    pub body: String,
}

/// A standing order to the host: deliver `message` every `every_seconds`.
#[derive(Clone, Copy, Debug, PartialEq, Eq, Structural)]
pub struct Subscription {
    pub every_seconds: u64,
    pub message: Message,
}

/// What an indicator is, as far as its behaviour goes: the outcome of the
/// latest read, the popup, and the name that the next popup will get.
pub ghost struct IndicatorState {
    pub reading: Result<UptimeReading, ReadError>,
    pub popup: PopupState,
    pub next_popup: PopupId,
}

impl IndicatorState {
    /// The long text that an indicator in this state shows.
    pub open spec fn uptime(self) -> Seq<char> {
        uptime_text(self.reading)
    }

    /// The short text that an indicator in this state shows.
    pub open spec fn short_uptime(self) -> Seq<char> {
        short_uptime_text(self.reading)
    }
}

/// The title line of the popup.
pub open spec fn popup_title() -> Seq<char> {
    "Uptime"@
}

/// The popups that an indicator in state `state` knows to be open: the one
/// it holds, or none.
pub open spec fn held(state: IndicatorState) -> Set<PopupId> {
    match state.popup {
        PopupState::PopupOpen(id) => set![id],
        PopupState::PopupClosed => Set::empty(),
    }
}

/// The popups on screen once the host has carried out `command`, where
/// `on_screen` were there before.
pub open spec fn carried_out(on_screen: Set<PopupId>, command: Option<HostCommand>) -> Set<
    PopupId,
> {
    match command {
        Some(HostCommand::RequestPopup(id)) => on_screen.insert(id),
        Some(HostCommand::DestroyPopup(id)) => on_screen.remove(id),
        None => on_screen,
    }
}

/// The name handed out after `id`. Names run through all of `u64` before one
/// comes again.
pub open spec fn following(id: PopupId) -> PopupId {
    PopupId { number: if id.number == u64::MAX { 0 } else { (id.number + 1) as u64 } }
}

/// The name `count` places after `id`.
pub open spec fn following_by(id: PopupId, count: nat) -> PopupId
    decreases count,
{
    if count == 0 {
        id
    } else {
        following(following_by(id, (count - 1) as nat))
    }
}

/// The state of an indicator that has just been made from a first read.
pub open spec fn initial_state(reading: Result<UptimeReading, ReadError>) -> IndicatorState {
    IndicatorState {
        reading,
        popup: PopupState::PopupClosed,
        next_popup: PopupId { number: 0 },
    }
}

/// The indicator's answer to one event: the state it moves to and what it
/// asks of the host. `reading` is the outcome of the uptime read made when
/// the event came in; only a tick looks at it.
pub open spec fn step(
    pre: IndicatorState,
    message: Message,
    reading: Result<UptimeReading, ReadError>,
) -> (IndicatorState, Option<HostCommand>) {
    match message {
        Message::Tick => (IndicatorState { reading, ..pre }, None),
        Message::Toggle => match pre.popup {
            PopupState::PopupOpen(id) => (
                IndicatorState { popup: PopupState::PopupClosed, ..pre },
                Some(HostCommand::DestroyPopup(id)),
            ),
            PopupState::PopupClosed => (
                IndicatorState {
                    popup: PopupState::PopupOpen(pre.next_popup),
                    next_popup: following(pre.next_popup),
                    ..pre
                },
                Some(HostCommand::RequestPopup(pre.next_popup)),
            ),
        },
        Message::PopupClosedByHost(id) => if pre.popup == PopupState::PopupOpen(id) {
            (IndicatorState { popup: PopupState::PopupClosed, ..pre }, None)
        } else {
            (pre, None)
        },
    }
}

/// Two presses in a row on a closed popup leave it closed again. The first
/// asks the host for a popup and the second has that same popup destroyed,
/// so no name is left behind; the texts are untouched, whatever was read in
/// between.
pub proof fn toggle_twice_closes_again(
    pre: IndicatorState,
    first: Result<UptimeReading, ReadError>,
    second: Result<UptimeReading, ReadError>,
)
    requires
        pre.popup == PopupState::PopupClosed,
    ensures
        ({
            let (mid, opened) = step(pre, Message::Toggle, first);
            let (post, closed) = step(mid, Message::Toggle, second);
            &&& opened == Some(HostCommand::RequestPopup(pre.next_popup))
            &&& mid.popup == PopupState::PopupOpen(pre.next_popup)
            &&& closed == Some(HostCommand::DestroyPopup(pre.next_popup))
            &&& post.popup == PopupState::PopupClosed
            &&& post.reading == pre.reading
        }),
{
}

/// No popup is ever left behind on screen. If the indicator knows of every
/// popup on screen before an event, it knows of every one that is there when
/// the host has carried out its answer. The host gives notice of a close
/// only once that popup is off the screen.
pub proof fn no_popup_is_left_behind(
    pre: IndicatorState,
    on_screen: Set<PopupId>,
    message: Message,
    reading: Result<UptimeReading, ReadError>,
)
    requires
        on_screen.subset_of(held(pre)),
        message matches Message::PopupClosedByHost(id) ==> !on_screen.contains(id),
    ensures
        ({
            let (post, command) = step(pre, message, reading);
            carried_out(on_screen, command).subset_of(held(post))
        }),
{
}

/// A press opens a closed popup and closes an open one.
pub proof fn toggle_flips_popup(pre: IndicatorState, reading: Result<UptimeReading, ReadError>)
    ensures
        step(pre, Message::Toggle, reading).0.popup is PopupOpen <==> pre.popup is PopupClosed,
{
}

/// A close notice from the host for any popup but the open one changes
/// nothing and asks nothing.
pub proof fn stale_close_is_ignored(
    pre: IndicatorState,
    id: PopupId,
    reading: Result<UptimeReading, ReadError>,
)
    requires
        pre.popup != PopupState::PopupOpen(id),
    ensures
        step(pre, Message::PopupClosedByHost(id), reading) == (pre, None::<HostCommand>),
{
}

/// A tick takes the new reading and leaves the popup as it is, open or
/// closed, asking nothing of the host.
pub proof fn tick_keeps_popup(pre: IndicatorState, reading: Result<UptimeReading, ReadError>)
    ensures
        step(pre, Message::Tick, reading) == (
            IndicatorState { reading, popup: pre.popup, next_popup: pre.next_popup },
            None::<HostCommand>,
        ),
{
}

/// Only a tick changes what is shown: after any other event both texts are
/// those of before.
pub proof fn texts_change_on_tick_only(
    pre: IndicatorState,
    message: Message,
    reading: Result<UptimeReading, ReadError>,
)
    requires
        message != Message::Tick,
    ensures
        step(pre, message, reading).0.reading == pre.reading,
        step(pre, message, reading).0.uptime() == pre.uptime(),
        step(pre, message, reading).0.short_uptime() == pre.short_uptime(),
{
}

/// After a tick whose read failed both texts are the fallbacks, whatever was
/// shown before.
pub proof fn failed_read_shows_fallbacks(pre: IndicatorState, error: ReadError)
    ensures
        step(pre, Message::Tick, Err(error)).0.uptime() == full_fallback(),
        step(pre, Message::Tick, Err(error)).0.short_uptime() == short_fallback(),
{
}

/// A popup that is opened again gets another name than it had before, so
/// that a late close notice for the old popup does not close the new one.
pub proof fn reopened_popup_is_renamed(
    pre: IndicatorState,
    first: Result<UptimeReading, ReadError>,
    second: Result<UptimeReading, ReadError>,
    third: Result<UptimeReading, ReadError>,
    fourth: Result<UptimeReading, ReadError>,
)
    requires
        pre.popup == PopupState::PopupClosed,
    ensures
        ({
            let old_id = pre.next_popup;
            let opened = step(pre, Message::Toggle, first).0;
            let closed = step(opened, Message::Toggle, second).0;
            let reopened = step(closed, Message::Toggle, third).0;
            &&& opened.popup == PopupState::PopupOpen(old_id)
            &&& reopened.popup == PopupState::PopupOpen(following(old_id))
            &&& following(old_id) != old_id
            &&& step(reopened, Message::PopupClosedByHost(old_id), fourth).0 == reopened
        }),
{
}

/// Only the opening of a popup uses up a name; every other event leaves the
/// next name as it is.
pub proof fn only_an_opening_takes_a_name(
    pre: IndicatorState,
    message: Message,
    reading: Result<UptimeReading, ReadError>,
)
    ensures
        step(pre, message, reading).0.next_popup == if message == Message::Toggle && pre.popup
            == PopupState::PopupClosed {
            following(pre.next_popup)
        } else {
            pre.next_popup
        },
{
}

/// A name comes again only after every other name of `u64` has been handed
/// out: none of the next 2^64 - 1 names is the one they follow.
pub proof fn names_do_not_recur_early(id: PopupId, count: nat)
    requires
        0 < count < 0x1_0000_0000_0000_0000,
    ensures
        following_by(id, count) != id,
{
    following_by_adds(id, count);
}

/// The name `count` places after `id` is `count` more, around the end of
/// `u64`.
proof fn following_by_adds(id: PopupId, count: nat)
    ensures
        following_by(id, count).number == (id.number + count) % 0x1_0000_0000_0000_0000,
    decreases count,
{
    if count > 0 {
        following_by_adds(id, (count - 1) as nat);
    }
}

/// The uptime indicator: the two texts of the latest read and the popup.
pub struct UptimeIndicator {
    reading: Result<UptimeReading, ReadError>,
    uptime: String,
    short_uptime: String,
    popup: PopupState,
    next_popup: PopupId,
}

impl UptimeIndicator {
    /// Both texts are those of the one latest read.
    #[verifier::type_invariant]
    spec fn texts_match_reading(&self) -> bool {
        &&& self.uptime@ == uptime_text(self.reading)
        &&& self.short_uptime@ == short_uptime_text(self.reading)
    }

    /// The indicator's state.
    pub closed spec fn state(&self) -> IndicatorState {
        IndicatorState { reading: self.reading, popup: self.popup, next_popup: self.next_popup }
    }

    /// Makes the indicator from a first read, with the popup closed. It asks
    /// nothing of the host.
    pub fn init(reading: Result<UptimeReading, ReadError>) -> (made: (Self, Option<HostCommand>))
        ensures
            made.0.state() == initial_state(reading),
            made.1 is None,
    {
        let indicator = UptimeIndicator {
            reading,
            uptime: calculate_uptime(reading),
            short_uptime: short_uptime(reading),
            popup: PopupState::PopupClosed,
            next_popup: PopupId { number: 0 },
        };
        (indicator, None)
    }

    /// Answers one event. `reading` is the outcome of the uptime read made
    /// when the event came in.
    pub fn update(
        &mut self,
        message: Message,
        reading: Result<UptimeReading, ReadError>,
    ) -> (command: Option<HostCommand>)
        ensures
            (final(self).state(), command) == step(old(self).state(), message, reading),
    {
        proof {
            use_type_invariant(&*self);
        }
        match message {
            Message::Tick => {
                *self = UptimeIndicator {
                    reading,
                    uptime: calculate_uptime(reading),
                    short_uptime: short_uptime(reading),
                    popup: self.popup,
                    next_popup: self.next_popup,
                };
                None
            },
            Message::Toggle => match self.popup {
                PopupState::PopupOpen(id) => {
                    self.popup = PopupState::PopupClosed;
                    Some(HostCommand::DestroyPopup(id))
                },
                PopupState::PopupClosed => {
                    let id = self.next_popup;
                    self.popup = PopupState::PopupOpen(id);
                    self.next_popup = PopupId { number: id.number.wrapping_add(1) };
                    Some(HostCommand::RequestPopup(id))
                },
            },
            Message::PopupClosedByHost(id) => {
                if self.popup == PopupState::PopupOpen(id) {
                    self.popup = PopupState::PopupClosed;
                }
                None
            },
        }
    }

    /// The icon: the short text as its label, and a press toggles the popup.
    pub fn view(&self) -> (icon: IconView)
        ensures
            icon.label@ == self.state().short_uptime(),
            icon.on_press == Message::Toggle,
    {
        proof {
            use_type_invariant(self);
        }
        IconView { label: self.short_uptime.clone(), on_press: Message::Toggle }
    }

    /// The popup's content while the popup is open, and nothing while it is
    /// closed: the title `Uptime` over the long text.
    pub fn view_popup(&self) -> (content: Option<PopupView>)
        ensures
            match content {
                Some(shown) => {
                    &&& self.state().popup is PopupOpen
                    &&& shown.title@ == popup_title()
                    &&& shown.body@ == self.state().uptime()
                },
                None => self.state().popup is PopupClosed,
            },
    {
        proof {
            use_type_invariant(self);
        }
        match self.popup {
            PopupState::PopupOpen(_) => Some(
                PopupView { title: String::from_str("Uptime"), body: self.uptime.clone() },
            ),
            PopupState::PopupClosed => None,
        }
    }

    /// The timer that the indicator wants from its host: a tick every sixty
    /// seconds.
    pub fn subscription(&self) -> (order: Subscription)
        ensures
            order == (Subscription { every_seconds: 60, message: Message::Tick }),
    {
        Subscription { every_seconds: 60, message: Message::Tick }
    }

    /// The long text of the latest read.
    pub fn uptime(&self) -> (text: &str)
        ensures
            text@ == self.state().uptime(),
    {
        proof {
            use_type_invariant(self);
        }
        self.uptime.as_str()
    }

    /// The short text of the latest read.
    pub fn short_uptime(&self) -> (text: &str)
        ensures
            text@ == self.state().short_uptime(),
    {
        proof {
            use_type_invariant(self);
        }
        self.short_uptime.as_str()
    }

    /// The outcome of the latest read.
    pub fn reading(&self) -> (reading: Result<UptimeReading, ReadError>)
        ensures
            reading == self.state().reading,
    {
        self.reading
    }

    /// The popup, open or closed.
    pub fn popup(&self) -> (popup: PopupState)
        ensures
            popup == self.state().popup,
    {
        self.popup
    }
}

} // verus!

use uptime_indicator::indicator::{
    HostCommand, IconView, Message, PopupId, PopupState, PopupView, Subscription, UptimeIndicator,
};
use uptime_indicator::uptime::{ReadError, UptimeReading};

fn up(seconds: u64) -> Result<UptimeReading, ReadError> {
    Ok(UptimeReading { seconds })
}

fn failed() -> Result<UptimeReading, ReadError> {
    Err(ReadError)
}

fn id(number: u64) -> PopupId {
    PopupId { number }
}

fn started(reading: Result<UptimeReading, ReadError>) -> UptimeIndicator {
    UptimeIndicator::init(reading).0
}

#[test]
fn init_renders_the_first_reading() {
    let (indicator, command) = UptimeIndicator::init(up(3661));
    assert_eq!(command, None);
    assert_eq!(indicator.uptime(), "1h 1m 1s");
    assert_eq!(indicator.short_uptime(), "0D01h");
    assert_eq!(indicator.reading(), up(3661));
    assert_eq!(indicator.popup(), PopupState::PopupClosed);
}

#[test]
fn init_with_a_failed_read_shows_the_fallbacks() {
    let (indicator, command) = UptimeIndicator::init(failed());
    assert_eq!(command, None);
    assert_eq!(indicator.uptime(), "Failed to retrieve uptime");
    assert_eq!(indicator.short_uptime(), "N/A");
    assert_eq!(indicator.reading(), failed());
    assert_eq!(indicator.popup(), PopupState::PopupClosed);
}

#[test]
fn tick_refreshes_both_texts() {
    let mut indicator = started(up(0));
    assert_eq!(indicator.uptime(), "0h 0m 0s");
    assert_eq!(indicator.short_uptime(), "0D00h");
    assert_eq!(indicator.update(Message::Tick, up(90_000)), None);
    assert_eq!(indicator.uptime(), "25h 0m 0s");
    assert_eq!(indicator.short_uptime(), "1D01h");
    assert_eq!(indicator.reading(), up(90_000));
    assert_eq!(indicator.popup(), PopupState::PopupClosed);
}

#[test]
fn tick_while_open_keeps_the_popup() {
    let mut indicator = started(up(60));
    assert_eq!(indicator.update(Message::Toggle, up(61)), Some(HostCommand::RequestPopup(id(0))));
    assert_eq!(indicator.popup(), PopupState::PopupOpen(id(0)));
    assert_eq!(indicator.update(Message::Tick, up(3661)), None);
    assert_eq!(indicator.popup(), PopupState::PopupOpen(id(0)));
    assert_eq!(indicator.uptime(), "1h 1m 1s");
    assert_eq!(indicator.short_uptime(), "0D01h");
    assert_eq!(
        indicator.view_popup(),
        Some(PopupView { title: String::from("Uptime"), body: String::from("1h 1m 1s") })
    );
}

#[test]
fn tick_with_a_failed_read_shows_the_fallbacks() {
    let mut indicator = started(up(3661));
    assert_eq!(indicator.update(Message::Tick, failed()), None);
    assert_eq!(indicator.uptime(), "Failed to retrieve uptime");
    assert_eq!(indicator.short_uptime(), "N/A");
    assert_eq!(indicator.reading(), failed());
}

#[test]
fn tick_after_a_failed_read_recovers() {
    let mut indicator = started(failed());
    assert_eq!(indicator.update(Message::Tick, up(7200)), None);
    assert_eq!(indicator.uptime(), "2h 0m 0s");
    assert_eq!(indicator.short_uptime(), "0D02h");
}

#[test]
fn toggle_opens_a_closed_popup() {
    let mut indicator = started(up(5));
    let command = indicator.update(Message::Toggle, up(6));
    assert_eq!(command, Some(HostCommand::RequestPopup(id(0))));
    assert_eq!(indicator.popup(), PopupState::PopupOpen(id(0)));
}

#[test]
fn toggle_closes_an_open_popup() {
    let mut indicator = started(up(5));
    indicator.update(Message::Toggle, up(6));
    let command = indicator.update(Message::Toggle, up(7));
    assert_eq!(command, Some(HostCommand::DestroyPopup(id(0))));
    assert_eq!(indicator.popup(), PopupState::PopupClosed);
}

#[test]
fn toggle_twice_destroys_what_it_requested() {
    let mut indicator = started(up(5));
    for _ in 0..50 {
        let opened = indicator.update(Message::Toggle, failed());
        let requested = match opened {
            Some(HostCommand::RequestPopup(requested)) => requested,
            other => panic!("no popup requested: {:?}", other),
        };
        assert_eq!(indicator.popup(), PopupState::PopupOpen(requested));
        let closed = indicator.update(Message::Toggle, failed());
        assert_eq!(closed, Some(HostCommand::DestroyPopup(requested)));
        assert_eq!(indicator.popup(), PopupState::PopupClosed);
    }
}

#[test]
fn toggle_does_not_refresh_the_texts() {
    let mut indicator = started(up(3661));
    indicator.update(Message::Toggle, up(90_000));
    assert_eq!(indicator.uptime(), "1h 1m 1s");
    assert_eq!(indicator.short_uptime(), "0D01h");
    indicator.update(Message::Toggle, failed());
    assert_eq!(indicator.uptime(), "1h 1m 1s");
    assert_eq!(indicator.short_uptime(), "0D01h");
    assert_eq!(indicator.reading(), up(3661));
}

#[test]
fn each_opening_gets_the_next_name() {
    let mut indicator = started(up(5));
    for number in 0..20u64 {
        assert_eq!(
            indicator.update(Message::Toggle, up(5)),
            Some(HostCommand::RequestPopup(id(number)))
        );
        assert_eq!(
            indicator.update(Message::Toggle, up(5)),
            Some(HostCommand::DestroyPopup(id(number)))
        );
    }
}

#[test]
fn host_close_of_the_open_popup_closes_it() {
    let mut indicator = started(up(5));
    indicator.update(Message::Toggle, up(5));
    assert_eq!(indicator.update(Message::PopupClosedByHost(id(0)), up(9)), None);
    assert_eq!(indicator.popup(), PopupState::PopupClosed);
    assert_eq!(indicator.uptime(), "0h 0m 5s");
}

#[test]
fn host_close_of_another_popup_is_ignored() {
    let mut indicator = started(up(5));
    indicator.update(Message::Toggle, up(5));
    assert_eq!(indicator.update(Message::PopupClosedByHost(id(1)), up(9)), None);
    assert_eq!(indicator.popup(), PopupState::PopupOpen(id(0)));
    assert_eq!(indicator.update(Message::PopupClosedByHost(id(u64::MAX)), failed()), None);
    assert_eq!(indicator.popup(), PopupState::PopupOpen(id(0)));
    assert_eq!(indicator.uptime(), "0h 0m 5s");
    assert_eq!(indicator.short_uptime(), "0D00h");
}

#[test]
fn host_close_while_closed_is_ignored() {
    let mut indicator = started(up(5));
    assert_eq!(indicator.update(Message::PopupClosedByHost(id(0)), up(9)), None);
    assert_eq!(indicator.popup(), PopupState::PopupClosed);
    assert_eq!(indicator.update(Message::Toggle, up(9)), Some(HostCommand::RequestPopup(id(0))));
}

#[test]
fn late_close_of_the_old_popup_leaves_the_new_one() {
    let mut indicator = started(up(5));
    indicator.update(Message::Toggle, up(5));
    indicator.update(Message::Toggle, up(5));
    indicator.update(Message::Toggle, up(5));
    assert_eq!(indicator.popup(), PopupState::PopupOpen(id(1)));
    assert_eq!(indicator.update(Message::PopupClosedByHost(id(0)), up(5)), None);
    assert_eq!(indicator.popup(), PopupState::PopupOpen(id(1)));
    assert_eq!(indicator.update(Message::PopupClosedByHost(id(1)), up(5)), None);
    assert_eq!(indicator.popup(), PopupState::PopupClosed);
}

#[test]
fn host_close_then_toggle_opens_again() {
    let mut indicator = started(up(5));
    indicator.update(Message::Toggle, up(5));
    indicator.update(Message::PopupClosedByHost(id(0)), up(5));
    assert_eq!(indicator.update(Message::Toggle, up(5)), Some(HostCommand::RequestPopup(id(1))));
    assert_eq!(indicator.popup(), PopupState::PopupOpen(id(1)));
}

#[test]
fn view_is_the_short_text_and_toggles() {
    let mut indicator = started(up(90_000));
    assert_eq!(
        indicator.view(),
        IconView { label: String::from("1D01h"), on_press: Message::Toggle }
    );
    indicator.update(Message::Tick, failed());
    assert_eq!(indicator.view(), IconView { label: String::from("N/A"), on_press: Message::Toggle });
}

#[test]
fn view_popup_is_there_only_while_open() {
    let mut indicator = started(up(3661));
    assert_eq!(indicator.view_popup(), None);
    indicator.update(Message::Toggle, up(0));
    assert_eq!(
        indicator.view_popup(),
        Some(PopupView { title: String::from("Uptime"), body: String::from("1h 1m 1s") })
    );
    indicator.update(Message::Toggle, up(0));
    assert_eq!(indicator.view_popup(), None);
}

#[test]
fn view_popup_shows_the_fallback_after_a_failed_read() {
    let mut indicator = started(failed());
    indicator.update(Message::Toggle, failed());
    assert_eq!(
        indicator.view_popup(),
        Some(PopupView {
            title: String::from("Uptime"),
            body: String::from("Failed to retrieve uptime"),
        })
    );
}

#[test]
fn subscription_is_a_tick_every_minute() {
    let indicator = started(up(1));
    assert_eq!(
        indicator.subscription(),
        Subscription { every_seconds: 60, message: Message::Tick }
    );
}

#[test]
fn pressing_the_icon_toggles_the_popup() {
    let mut indicator = started(up(1));
    let press = indicator.view().on_press;
    assert_eq!(indicator.update(press, up(2)), Some(HostCommand::RequestPopup(id(0))));
    let press = indicator.view().on_press;
    assert_eq!(indicator.update(press, up(3)), Some(HostCommand::DestroyPopup(id(0))));
    assert_eq!(indicator.popup(), PopupState::PopupClosed);
}

#[test]
fn texts_always_belong_to_one_reading() {
    let mut indicator = started(up(0));
    let events = [
        (Message::Tick, up(86_399)),
        (Message::Toggle, up(1)),
        (Message::Tick, failed()),
        (Message::PopupClosedByHost(id(3)), up(2)),
        (Message::Tick, up(86_400)),
        (Message::PopupClosedByHost(id(0)), failed()),
        (Message::Toggle, up(3)),
        (Message::Tick, up(172_800 + 3_600)),
    ];
    let expected = [
        ("23h 59m 59s", "0D23h"),
        ("23h 59m 59s", "0D23h"),
        ("Failed to retrieve uptime", "N/A"),
        ("Failed to retrieve uptime", "N/A"),
        ("24h 0m 0s", "1D00h"),
        ("24h 0m 0s", "1D00h"),
        ("24h 0m 0s", "1D00h"),
        ("49h 0m 0s", "2D01h"),
    ];
    for ((message, reading), (full, short)) in events.into_iter().zip(expected) {
        indicator.update(message, reading);
        assert_eq!(indicator.uptime(), full);
        assert_eq!(indicator.short_uptime(), short);
    }
}

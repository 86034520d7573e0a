use pushover::{Message, MessageBuilder, PushoverSound};

fn fresh() -> MessageBuilder {
    MessageBuilder::new("user-key", "app-token", "hello")
}

#[test]
fn new_stores_required_fields_verbatim() {
    let msg: Message = fresh().build();
    assert_eq!(msg.user_key, "user-key".to_string());
    assert_eq!(msg.app_token, "app-token".to_string());
    assert_eq!(msg.message, "hello".to_string());
}

#[test]
fn new_starts_with_optional_fields_absent_and_priority_normal() {
    let msg = fresh().build();
    assert_eq!(msg.title, None);
    assert_eq!(msg.url, None);
    assert_eq!(msg.url_title, None);
    assert_eq!(msg.priority, Some(0));
    assert_eq!(msg.sound, None);
    assert_eq!(msg.timestamp, None);
    assert_eq!(msg.devices, None);
}

#[test]
fn modify_message_replaces_non_blank_text() {
    let msg = fresh().modify_message("world").build();
    assert_eq!(msg.message, "world".to_string());
}

#[test]
fn modify_message_keeps_previous_text_on_blank_input() {
    let msg = fresh().modify_message("").build();
    assert_eq!(msg.message, "hello".to_string());
    let msg = fresh().modify_message("   ").build();
    assert_eq!(msg.message, "hello".to_string());
    let msg = fresh().modify_message("\t\n ").build();
    assert_eq!(msg.message, "hello".to_string());
}

#[test]
fn set_title_stores_non_blank_title_untrimmed() {
    let msg = fresh().set_title("Alert").build();
    assert_eq!(msg.title, Some("Alert".to_string()));
    let msg = fresh().set_title("  spaced  ").build();
    assert_eq!(msg.title, Some("  spaced  ".to_string()));
}

#[test]
fn set_title_clears_on_blank_input() {
    let msg = fresh().set_title("Alert").set_title("").build();
    assert_eq!(msg.title, None);
    let msg = fresh().set_title("Alert").set_title("   ").build();
    assert_eq!(msg.title, None);
}

#[test]
fn set_title_treats_unicode_white_space_as_blank() {
    let msg = fresh().set_title("\u{3000}\u{00A0}\u{2028}").build();
    assert_eq!(msg.title, None);
}

#[test]
fn add_title_behaves_like_set_title() {
    let msg = fresh().add_title("Alert").build();
    assert_eq!(msg.title, Some("Alert".to_string()));
    let msg = fresh().add_title("Alert").add_title(" ").build();
    assert_eq!(msg.title, None);
}

#[test]
fn remove_title_clears_the_title() {
    let msg = fresh().set_title("Alert").remove_title().build();
    assert_eq!(msg.title, None);
}

#[test]
fn set_url_stores_url_and_label() {
    let msg = fresh().set_url("http://x", Some("A")).build();
    assert_eq!(msg.url, Some("http://x".to_string()));
    assert_eq!(msg.url_title, Some("A".to_string()));
}

#[test]
fn set_url_without_label_leaves_previous_label() {
    let msg = fresh().set_url("http://x", Some("A")).set_url("http://y", None).build();
    assert_eq!(msg.url, Some("http://y".to_string()));
    assert_eq!(msg.url_title, Some("A".to_string()));
}

#[test]
fn set_url_with_blank_url_clears_both_and_ignores_label() {
    let msg = fresh().set_url("http://x", Some("A")).set_url("", Some("B")).build();
    assert_eq!(msg.url, None);
    assert_eq!(msg.url_title, None);
    let msg = fresh().set_url("http://x", Some("A")).set_url("   ", None).build();
    assert_eq!(msg.url, None);
    assert_eq!(msg.url_title, None);
}

#[test]
fn set_url_stores_a_supplied_blank_label_verbatim() {
    let msg = fresh().set_url("http://x", Some("")).build();
    assert_eq!(msg.url, Some("http://x".to_string()));
    assert_eq!(msg.url_title, Some("".to_string()));
}

#[test]
fn add_url_behaves_like_set_url() {
    let msg = fresh().add_url("http://x", Some("A")).add_url("http://y", None).build();
    assert_eq!(msg.url, Some("http://y".to_string()));
    assert_eq!(msg.url_title, Some("A".to_string()));
    let msg = fresh().add_url("http://x", Some("A")).add_url("", Some("B")).build();
    assert_eq!(msg.url, None);
    assert_eq!(msg.url_title, None);
}

#[test]
fn remove_url_clears_url_and_label() {
    let msg = fresh().set_url("http://x", Some("A")).remove_url().build();
    assert_eq!(msg.url, None);
    assert_eq!(msg.url_title, None);
}

#[test]
fn set_priority_stores_values_in_range() {
    assert_eq!(fresh().set_priority(-2).build().priority, Some(-2));
    assert_eq!(fresh().set_priority(-1).build().priority, Some(-1));
    assert_eq!(fresh().set_priority(0).build().priority, Some(0));
    assert_eq!(fresh().set_priority(1).build().priority, Some(1));
    assert_eq!(fresh().set_priority(2).build().priority, Some(2));
}

#[test]
fn set_priority_normalizes_out_of_range_values_to_zero() {
    assert_eq!(fresh().set_priority(-5).build().priority, Some(0));
    assert_eq!(fresh().set_priority(3).build().priority, Some(0));
    assert_eq!(fresh().set_priority(100).build().priority, Some(0));
    assert_eq!(fresh().set_priority(-128).build().priority, Some(0));
    assert_eq!(fresh().set_priority(127).build().priority, Some(0));
}

#[test]
fn remove_priority_resets_to_present_zero() {
    let msg = fresh().set_priority(2).remove_priority().build();
    assert_eq!(msg.priority, Some(0));
}

#[test]
fn set_sound_stores_the_canonical_identifier() {
    assert_eq!(fresh().set_sound(PushoverSound::Cosmic).build().sound, Some("cosmic".to_string()));
    assert_eq!(
        fresh().set_sound(PushoverSound::CashRegister).build().sound,
        Some("cashregister".to_string())
    );
    assert_eq!(fresh().set_sound(PushoverSound::NoSound).build().sound, Some("none".to_string()));
}

#[test]
fn every_sound_has_its_canonical_identifier() {
    let cases = vec![
        (PushoverSound::Pushover, "pushover"),
        (PushoverSound::Bike, "bike"),
        (PushoverSound::Bugle, "bugle"),
        (PushoverSound::CashRegister, "cashregister"),
        (PushoverSound::Classical, "classical"),
        (PushoverSound::Cosmic, "cosmic"),
        (PushoverSound::Falling, "falling"),
        (PushoverSound::Gamelan, "gamelan"),
        (PushoverSound::Incoming, "incoming"),
        (PushoverSound::Intermission, "intermission"),
        (PushoverSound::Magic, "magic"),
        (PushoverSound::Mechanical, "mechanical"),
        (PushoverSound::PianoBar, "pianobar"),
        (PushoverSound::Siren, "siren"),
        (PushoverSound::SpaceAlarm, "spacealarm"),
        (PushoverSound::Tugboat, "tugboat"),
        (PushoverSound::Alien, "alien"),
        (PushoverSound::Climb, "climb"),
        (PushoverSound::Persistent, "persistent"),
        (PushoverSound::Echo, "echo"),
        (PushoverSound::UpDown, "updown"),
        (PushoverSound::Vibrate, "vibrate"),
        (PushoverSound::NoSound, "none"),
    ];
    for (sound, expected) in cases {
        assert_eq!(sound.canonical_name(), expected.to_string());
        assert_eq!(fresh().set_sound(sound).build().sound, Some(expected.to_string()));
    }
}

#[test]
fn remove_sound_clears_the_sound() {
    let msg = fresh().set_sound(PushoverSound::Siren).remove_sound().build();
    assert_eq!(msg.sound, None);
}

#[test]
fn set_timestamp_stores_any_value_as_is() {
    assert_eq!(fresh().set_timestamp(0).build().timestamp, Some(0));
    assert_eq!(fresh().set_timestamp(1700000000).build().timestamp, Some(1700000000));
    assert_eq!(fresh().set_timestamp(u64::MAX).build().timestamp, Some(u64::MAX));
}

#[test]
fn remove_timestamp_clears_the_timestamp() {
    let msg = fresh().set_timestamp(12345).remove_timestamp().build();
    assert_eq!(msg.timestamp, None);
}

#[test]
fn add_device_ignores_a_duplicate_name() {
    let msg = fresh().add_device("a").add_device("a").build();
    assert_eq!(msg.devices, Some(vec!["a".to_string()]));
}

#[test]
fn add_device_preserves_insertion_order() {
    let msg = fresh().add_device("a").add_device("b").build();
    assert_eq!(msg.devices, Some(vec!["a".to_string(), "b".to_string()]));
}

#[test]
fn add_device_ignores_a_blank_name() {
    let msg = fresh().add_device("  ").build();
    assert_eq!(msg.devices, None);
    let msg = fresh().add_device("a").add_device("").build();
    assert_eq!(msg.devices, Some(vec!["a".to_string()]));
}

#[test]
fn set_devices_stores_the_list_verbatim() {
    let msg = fresh().set_devices(vec!["a", "a", ""]).build();
    assert_eq!(msg.devices, Some(vec!["a".to_string(), "a".to_string(), "".to_string()]));
}

#[test]
fn merge_devices_filters_blanks_and_duplicates() {
    let msg = fresh().merge_devices(vec!["a", "a", ""]).build();
    assert_eq!(msg.devices, Some(vec!["a".to_string()]));
}

#[test]
fn merge_devices_extends_an_existing_list_in_order() {
    let msg = fresh().add_device("a").merge_devices(vec!["b", "a", "c"]).build();
    assert_eq!(msg.devices, Some(vec!["a".to_string(), "b".to_string(), "c".to_string()]));
}

#[test]
fn clear_devices_list_makes_the_list_absent() {
    let msg = fresh().add_device("a").clear_devices_list().build();
    assert_eq!(msg.devices, None);
}

#[test]
fn end_to_end_chain_normalizes_as_specified() {
    let msg = MessageBuilder::new("u", "t", "hello")
        .set_title("Alert")
        .set_priority(9)
        .add_device("phone")
        .add_device("phone")
        .build();
    assert_eq!(msg.message, "hello".to_string());
    assert_eq!(msg.title, Some("Alert".to_string()));
    assert_eq!(msg.priority, Some(0));
    assert_eq!(msg.devices, Some(vec!["phone".to_string()]));
}

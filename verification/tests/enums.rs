use playground::enums::inspect;
use playground::enums::WebEvent;

#[test]
fn page_events_are_reported_by_one_word() {
    assert_eq!(inspect(WebEvent::PageLoaded), "loaded");
    assert_eq!(inspect(WebEvent::PageUnloaded), "unloaded");
}

#[test]
fn key_is_reported_with_its_character() {
    assert_eq!(inspect(WebEvent::KeyPressed('x')), "key x pressed");
    assert_eq!(inspect(WebEvent::KeyPressed('ß')), "key ß pressed");
}

#[test]
fn copy_and_paste_are_reported_with_their_text() {
    assert_eq!(inspect(WebEvent::Copy(String::from("some text"))), "some text copied");
    assert_eq!(inspect(WebEvent::Paste(String::from("some text"))), "some text pasted");
    assert_eq!(inspect(WebEvent::Copy(String::new())), " copied");
}

#[test]
fn click_is_reported_with_its_place() {
    assert_eq!(inspect(WebEvent::Clicked { x: 20, y: 80 }), "(20,80) clicked");
    assert_eq!(inspect(WebEvent::Clicked { x: 0, y: 0 }), "(0,0) clicked");
    assert_eq!(inspect(WebEvent::Clicked { x: -3, y: 14 }), "(-3,14) clicked");
    assert_eq!(
        inspect(WebEvent::Clicked { x: i64::MIN, y: i64::MAX }),
        "(-9223372036854775808,9223372036854775807) clicked"
    );
}

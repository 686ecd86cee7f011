use poor_jimmy::commands::play_url::{format_description, is_valid_youtube_url};

#[test]
fn it_formats_description_queued() {
    let title = String::from("Heat Waves");

    let formatted = format_description(title.clone(), true);
    assert_eq!(format!("**Queued** {}!", title), formatted);
}

#[test]
fn it_formats_description_playing() {
    let title = String::from("Heat Waves");

    let formatted = format_description(title.clone(), false);
    assert_eq!(format!("**Playing** {}!", title), formatted);
}

#[test]
fn it_validates_valid_youtube_urls() {
    let valid_watch_url = String::from("https://www.youtube.com/watch?id=12345");
    let valid_share_url = String::from("https://youtu.be/e7qtC_e8Jxc?si=mtCnq8iVc253P89M");

    assert_eq!(true, is_valid_youtube_url(&valid_watch_url));
    assert_eq!(true, is_valid_youtube_url(&valid_share_url));
}

#[test]
fn it_validates_invalid_youtube_urls() {
    let invalid_url = String::from("https://www.you.tube.com/watch?id=12345");
    let another_invalid_url = String::from("https://www.youtube.com/results?search_query=title");

    assert_eq!(false, is_valid_youtube_url(&invalid_url));
    assert_eq!(false, is_valid_youtube_url(&another_invalid_url));
}

use message_row::indicators::sending_state_icon_visible;
use message_row::photo::{
    handle_file_update, photo_caption, plan_message_change, DownloadUpdate, FileInfo,
    MessageChange, MessageContentInfo, PhotoInfo,
};

#[test]
fn completed_download_hands_over_the_local_path() {
    let file = FileInfo {
        id: 9,
        expected_size: 2048,
        downloaded_size: 2048,
        is_downloading_completed: true,
        local_path: "/cache/photo_y.jpg".to_string(),
    };
    assert_eq!(
        handle_file_update(file),
        DownloadUpdate::Completed {
            path: "/cache/photo_y.jpg".to_string()
        }
    );
}

#[test]
fn running_download_reports_its_progress() {
    let file = FileInfo {
        id: 9,
        expected_size: 2048,
        downloaded_size: 512,
        is_downloading_completed: false,
        local_path: String::new(),
    };
    assert_eq!(
        handle_file_update(file),
        DownloadUpdate::InProgress {
            downloaded_size: 512,
            expected_size: 2048,
        }
    );
}

#[test]
fn caption_of_a_photo_message() {
    let content = MessageContentInfo::Photo(PhotoInfo {
        caption: "holiday".to_string(),
        sizes: Vec::new(),
    });
    assert_eq!(photo_caption(&content).as_str(), "holiday");
}

#[test]
fn icon_hidden_without_a_name() {
    assert!(!sending_state_icon_visible(&None));
}

#[test]
fn icon_hidden_on_an_empty_name() {
    assert!(!sending_state_icon_visible(&Some(String::new())));
}

#[test]
fn icon_shown_on_a_name() {
    assert!(sending_state_icon_visible(&Some(
        "message-sending-symbolic".to_string()
    )));
}

#[test]
fn same_message_is_kept() {
    assert_eq!(plan_message_change(Some(41), 41), MessageChange::Keep);
}

#[test]
fn other_message_replaces_and_disconnects_the_old_one() {
    assert_eq!(
        plan_message_change(Some(41), 42),
        MessageChange::Replace {
            disconnect_old: true
        }
    );
}

#[test]
fn fresh_row_binds_without_disconnecting() {
    assert_eq!(
        plan_message_change(None, 42),
        MessageChange::Replace {
            disconnect_old: false
        }
    );
}

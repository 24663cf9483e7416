use olympus_air::app_state::{AppMode, AppState};
use olympus_air::detection::detect_terminal_capabilities;
use olympus_air::display::kitty::TerminalCapabilities;
use olympus_air::display::{auto_backend_order, iterm, kitty, method_backend, sixel, DisplayBackend};
use olympus_air::handlers::{
    dialog_dismisses, image_list_action, image_viewer_action, main_action, transfer_action,
    video_viewer_action, ImageListAction, ImageViewerAction, InputKey, MainAction, TransferAction,
    VideoViewerAction,
};
use olympus_air::text::{
    ascii_lowercase, ascii_uppercase, decimal_string, prefix_before_colon, str_contains,
    str_ends_with, str_eq, str_starts_with,
};
use olympus_air::viewer::{DisplayMethod, ImageViewerState, ResolutionLevel};

fn names(n: usize) -> Vec<String> {
    (0..n).map(|i| format!("P{:07}.JPG", i)).collect()
}

#[test]
fn text_helpers_behave() {
    assert_eq!(decimal_string(0), "0");
    assert_eq!(decimal_string(65001), "65001");
    assert_eq!(decimal_string(18446744073709551615), "18446744073709551615");
    assert_eq!(ascii_uppercase("p1010001.jpg"), "P1010001.JPG");
    assert_eq!(ascii_uppercase("Mixed_09 -x"), "MIXED_09 -X");
    assert_eq!(ascii_lowercase("P1010001.JPG"), "p1010001.jpg");
    assert!(str_contains("xterm-256color-sixel", "sixel"));
    assert!(!str_contains("xterm", "sixel"));
    assert!(str_contains("abc", ""));
    assert!(str_starts_with("http://x", "http"));
    assert!(!str_starts_with("ftp://x", "http"));
    assert!(str_ends_with("a&size=1024", "&size=1024"));
    assert!(!str_ends_with("a&size=2048", "&size=1024"));
    assert!(str_eq("same", "same"));
    assert!(!str_eq("same", "sam"));
    assert_eq!(prefix_before_colon("192.168.0.10:8080"), "192.168.0.10");
    assert_eq!(prefix_before_colon("nocolon"), "nocolon");
    assert_eq!(prefix_before_colon(":rest"), "");
}

#[test]
fn zoom_steps_stay_in_bounds() {
    let mut v = ImageViewerState::new("P1.JPG");
    assert_eq!(v.zoom_tenths, 10);
    for _ in 0..40 {
        v.zoom_in();
    }
    assert_eq!(v.zoom_tenths, 30);
    for _ in 0..40 {
        v.zoom_out();
    }
    assert_eq!(v.zoom_tenths, 1);
    v.reset_zoom();
    assert_eq!(v.zoom_tenths, 10);
}

#[test]
fn display_methods_cycle_in_a_fixed_round() {
    let mut v = ImageViewerState::new("P1.JPG");
    assert_eq!(v.display_method, DisplayMethod::Auto);
    assert_eq!(v.display_method_name(), "Auto");
    v.cycle_display_method();
    assert_eq!(v.display_method, DisplayMethod::Kitty);
    v.cycle_display_method();
    assert_eq!(v.display_method, DisplayMethod::ITerm);
    assert_eq!(v.display_method_name(), "iTerm2");
    v.cycle_display_method();
    assert_eq!(v.display_method, DisplayMethod::Sixel);
    v.cycle_display_method();
    assert_eq!(v.display_method, DisplayMethod::Basic);
    v.cycle_display_method();
    assert_eq!(v.display_method, DisplayMethod::Auto);
}

#[test]
fn resolution_climbs_and_stops_at_the_top() {
    let mut v = ImageViewerState::with_original_url("P1.JPG", Some("u".to_string()));
    assert_eq!(v.resolution_level, ResolutionLevel::Low);
    assert!(v.can_increase_resolution());
    assert!(v.increase_resolution());
    assert_eq!(v.resolution_level, ResolutionLevel::Medium);
    assert_eq!(v.get_resolution_name(), "Medium");
    assert!(v.increase_resolution());
    assert_eq!(v.resolution_level, ResolutionLevel::High);
    assert!(!v.increase_resolution());
    assert!(!v.can_increase_resolution());
    let plain = ImageViewerState::new("P1.JPG");
    assert!(!plain.can_increase_resolution());
    let fixed = ImageViewerState::with_display_method("P1.JPG", DisplayMethod::Sixel);
    assert_eq!(fixed.display_method, DisplayMethod::Sixel);
}

#[test]
fn dimensions_scale_with_zoom_and_keep_minimums() {
    let v = ImageViewerState::new("P1.JPG");
    assert_eq!(v.calculate_dimensions(84, 30), (80, 24));
    let mut wide = ImageViewerState::new("P1.JPG");
    for _ in 0..20 {
        wide.zoom_in();
    }
    assert_eq!(wide.calculate_dimensions(84, 30), (240, 72));
    let mut tiny = ImageViewerState::new("P1.JPG");
    for _ in 0..9 {
        tiny.zoom_out();
    }
    assert_eq!(tiny.calculate_dimensions(84, 30), (10, 5));
    assert_eq!(v.calculate_dimensions(2, 3), (10, 5));
}

#[test]
fn backends_decide_from_the_terminal() {
    assert!(iterm::try_display("iTerm.app", true, false));
    assert!(iterm::try_display("iTerm.app", false, true));
    assert!(!iterm::try_display("iTerm.app", false, false));
    assert!(!iterm::try_display("Terminal.app", true, true));
    assert!(sixel::try_display("xterm-sixel", true));
    assert!(!sixel::try_display("xterm-sixel", false));
    assert!(!sixel::try_display("xterm", true));
    let caps = TerminalCapabilities {
        supports_kitty: true,
        supports_iterm: false,
        supports_sixel: false,
    };
    assert!(!kitty::try_display(800, 600, &caps));
}

#[test]
fn capability_detection_reads_the_environment_values() {
    let caps = detect_terminal_capabilities("xterm-sixel", "kitty-terminal", false, false);
    assert!(caps.supports_kitty);
    assert!(!caps.supports_iterm);
    assert!(caps.supports_sixel);
    let caps = detect_terminal_capabilities("xterm", "Apple_Terminal", false, true);
    assert!(!caps.supports_kitty);
    assert!(caps.supports_iterm);
    assert!(!caps.supports_sixel);
}

#[test]
fn automatic_display_tries_backends_most_sophisticated_first() {
    let caps = TerminalCapabilities {
        supports_kitty: true,
        supports_iterm: true,
        supports_sixel: false,
    };
    assert_eq!(
        auto_backend_order(&caps),
        vec![
            DisplayBackend::ITerm,
            DisplayBackend::Kitty,
            DisplayBackend::Renderer,
            DisplayBackend::Basic,
        ]
    );
    let none = TerminalCapabilities {
        supports_kitty: false,
        supports_iterm: false,
        supports_sixel: false,
    };
    assert_eq!(
        auto_backend_order(&none),
        vec![DisplayBackend::Renderer, DisplayBackend::Basic]
    );
    assert_eq!(method_backend(DisplayMethod::Sixel), Some(DisplayBackend::Sixel));
    assert_eq!(method_backend(DisplayMethod::Auto), None);
}

#[test]
fn navigation_pages_follow_the_selection() {
    let mut s = AppState::new(names(40));
    s.set_mode(AppMode::ImageList);
    assert_eq!(s.total_pages(), 3);
    assert_eq!(s.page_start_index(), 0);
    assert_eq!(s.page_end_index(), 15);
    for _ in 0..15 {
        s.selection_down();
    }
    assert_eq!(s.selected_index, 15);
    assert_eq!(s.current_page_index, 1);
    s.selection_up();
    assert_eq!(s.selected_index, 14);
    assert_eq!(s.current_page_index, 0);
    s.next_page();
    assert_eq!(s.current_page_index, 1);
    assert_eq!(s.selected_index, 15);
    s.next_page();
    assert_eq!(s.current_page_index, 2);
    assert_eq!(s.page_end_index(), 40);
    s.next_page();
    assert_eq!(s.current_page_index, 2);
    s.prev_page();
    assert_eq!(s.current_page_index, 1);
    s.last_image();
    assert_eq!(s.selected_index, 39);
    assert_eq!(s.current_page_index, 2);
    s.first_image();
    assert_eq!(s.selected_index, 0);
    assert_eq!(s.current_page_index, 0);
}

#[test]
fn selection_stops_at_the_ends() {
    let mut s = AppState::new(names(2));
    assert_eq!(s.mode, AppMode::Main);
    s.selection_up();
    assert_eq!(s.selected_index, 0);
    for _ in 0..10 {
        s.selection_down();
    }
    assert_eq!(s.selected_index, 3);
    s.set_mode(AppMode::ImageList);
    for _ in 0..10 {
        s.selection_down();
    }
    assert_eq!(s.selected_index, 1);
}

#[test]
fn mode_switches_preserve_selection_only_for_operations() {
    let mut s = AppState::new(names(20));
    s.set_mode(AppMode::ImageList);
    for _ in 0..5 {
        s.selection_down();
    }
    assert_eq!(s.selected_index, 5);
    s.set_mode(AppMode::Downloading);
    assert_eq!(s.selected_index, 5);
    s.set_mode(AppMode::Deleting);
    assert_eq!(s.selected_index, 5);
    s.set_mode(AppMode::Main);
    assert_eq!(s.selected_index, 0);
}

#[test]
fn selected_image_requires_a_valid_index() {
    let s = AppState::new(Vec::new());
    assert!(s.selected_image().is_none());
    let mut s = AppState::new(names(3));
    s.set_mode(AppMode::ImageList);
    s.selection_down();
    assert_eq!(s.selected_image().map(|n| n.as_str()), Some("P0000001.JPG"));
}

#[test]
fn replacing_the_images_clamps_the_selection() {
    let mut s = AppState::new(names(20));
    s.set_mode(AppMode::ImageList);
    for _ in 0..18 {
        s.selection_down();
    }
    assert_eq!(s.selected_index, 18);
    s.set_images(names(5));
    assert_eq!(s.selected_index, 4);
    assert_eq!(s.current_page_index, 0);
    assert_eq!(s.images.len(), 5);
}

#[test]
fn dialogs_and_status() {
    let mut s = AppState::new(Vec::new());
    assert_eq!(s.status, "Ready");
    s.set_status("Working");
    assert_eq!(s.status, "Working");
    s.set_error_message("Title", "Message");
    s.set_show_error_dialog(true);
    assert!(s.show_error_dialog);
    assert_eq!(s.error_title, "Title");
    assert_eq!(s.error_message, "Message");
    s.dismiss_error_dialog();
    assert!(!s.show_error_dialog);
    assert!(dialog_dismisses(InputKey::Enter));
    assert!(dialog_dismisses(InputKey::Esc));
    assert!(dialog_dismisses(InputKey::Char(' ')));
    assert!(!dialog_dismisses(InputKey::Char('x')));
}

#[test]
fn key_mappings_per_screen() {
    assert_eq!(main_action(InputKey::Char('q'), 0), MainAction::Quit);
    assert_eq!(main_action(InputKey::Enter, 0), MainAction::TakePhoto);
    assert_eq!(main_action(InputKey::Enter, 1), MainAction::LoadImageList);
    assert_eq!(main_action(InputKey::Enter, 2), MainAction::StartLiveView);
    assert_eq!(main_action(InputKey::Enter, 3), MainAction::RefreshImages);
    assert_eq!(main_action(InputKey::Char('d'), 0), MainAction::ExploreApi);
    assert_eq!(main_action(InputKey::Up, 2), MainAction::SelectionUp);
    assert_eq!(main_action(InputKey::Char('z'), 0), MainAction::Nothing);

    assert_eq!(image_list_action(InputKey::Char('d'), true), ImageListAction::OpenDownloadScreen);
    assert_eq!(
        image_list_action(InputKey::Char('d'), false),
        ImageListAction::NoSelectionForDownload
    );
    assert_eq!(image_list_action(InputKey::Delete, true), ImageListAction::OpenDeleteScreen);
    assert_eq!(image_list_action(InputKey::Enter, true), ImageListAction::ViewImage);
    assert_eq!(image_list_action(InputKey::Enter, false), ImageListAction::NoSelectionToView);
    assert_eq!(image_list_action(InputKey::PageDown, true), ImageListAction::NextPage);
    assert_eq!(image_list_action(InputKey::Home, true), ImageListAction::FirstImage);
    assert_eq!(image_list_action(InputKey::Esc, true), ImageListAction::BackToMain);
    assert_eq!(image_list_action(InputKey::Char('r'), false), ImageListAction::Refresh);

    assert_eq!(transfer_action(InputKey::Enter), TransferAction::Confirm);
    assert_eq!(transfer_action(InputKey::Esc), TransferAction::Cancel);
    assert_eq!(transfer_action(InputKey::Char('q')), TransferAction::Quit);
    assert_eq!(transfer_action(InputKey::Up), TransferAction::Nothing);

    assert_eq!(image_viewer_action(InputKey::Char('+')), ImageViewerAction::ZoomIn);
    assert_eq!(image_viewer_action(InputKey::Char('=')), ImageViewerAction::ZoomIn);
    assert_eq!(image_viewer_action(InputKey::Char('-')), ImageViewerAction::ZoomOut);
    assert_eq!(image_viewer_action(InputKey::Char('0')), ImageViewerAction::ResetZoom);
    assert_eq!(image_viewer_action(InputKey::Char('a')), ImageViewerAction::ToggleAspect);
    assert_eq!(image_viewer_action(InputKey::Char('d')), ImageViewerAction::CycleMethod);
    assert_eq!(
        image_viewer_action(InputKey::Char('r')),
        ImageViewerAction::LoadHigherResolution
    );
    assert_eq!(image_viewer_action(InputKey::Enter), ImageViewerAction::Display);
    assert_eq!(image_viewer_action(InputKey::Esc), ImageViewerAction::Close);

    assert_eq!(video_viewer_action(InputKey::Char('q')), VideoViewerAction::QuitAndStop);
    assert_eq!(video_viewer_action(InputKey::Esc), VideoViewerAction::CloseAndStop);
    assert_eq!(video_viewer_action(InputKey::Enter), VideoViewerAction::Restart);
    assert_eq!(video_viewer_action(InputKey::Char(' ')), VideoViewerAction::TogglePlayback);
    assert_eq!(video_viewer_action(InputKey::Char('r')), VideoViewerAction::ToggleRecording);
    assert_eq!(video_viewer_action(InputKey::Char('d')), VideoViewerAction::Diagnostics);
    assert_eq!(video_viewer_action(InputKey::Char('x')), VideoViewerAction::Nothing);
}

#[test]
fn aspect_toggle_flips() {
    let mut v = ImageViewerState::new("P1.JPG");
    assert!(v.preserve_aspect);
    v.toggle_aspect_ratio();
    assert!(!v.preserve_aspect);
    v.toggle_aspect_ratio();
    assert!(v.preserve_aspect);
}

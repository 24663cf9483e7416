//! Input handling: what each key does on each screen.
//!
//! Every screen's handler is a total mapping from a key (and what is
//! selectable) to an action; the surrounding process performs the action,
//! mostly by calling back into the state's verified methods or by driving
//! the camera.

use vstd::prelude::*;

verus! {

/// A key press, as the decision logic sees it.
#[derive(Clone, Copy, PartialEq, Eq, Structural, Debug)]
pub enum InputKey {
    Char(char),
    Up,
    Down,
    PageUp,
    PageDown,
    Home,
    End,
    Delete,
    Enter,
    Esc,
    Other,
}

/// While the error dialog shows, a confirming key dismisses it and every
/// other key does nothing.
pub fn dialog_dismisses(key: InputKey) -> (r: bool)
    ensures
        r == (key == InputKey::Enter || key == InputKey::Esc || key == InputKey::Char(' ')),
{
    match key {
        InputKey::Enter => true,
        InputKey::Esc => true,
        InputKey::Char(c) => c == ' ',
        _ => false,
    }
}

/// What a key does in the main menu.
#[derive(Clone, Copy, PartialEq, Eq, Structural, Debug)]
pub enum MainAction {
    /// Leave the application.
    Quit,
    /// Move the selection up.
    SelectionUp,
    /// Move the selection down.
    SelectionDown,
    /// Probe the camera's endpoints for diagnostics.
    ExploreApi,
    /// Take a photo with the warm-up sequence.
    TakePhoto,
    /// Refresh the image list and open it.
    LoadImageList,
    /// Start the live-view stream.
    StartLiveView,
    /// Refresh the image count.
    RefreshImages,
    /// Nothing.
    Nothing,
}

/// The main menu's mapping: navigation keys move the selection, the probe
/// key explores the camera, and the confirm key runs the selected entry —
/// photo, image list, live view, or refresh.
pub fn main_action(key: InputKey, selected_index: usize) -> (r: MainAction)
    ensures
        key == InputKey::Char('q') ==> r == MainAction::Quit,
        key == InputKey::Up ==> r == MainAction::SelectionUp,
        key == InputKey::Down ==> r == MainAction::SelectionDown,
        key == InputKey::Char('d') ==> r == MainAction::ExploreApi,
        key == InputKey::Enter ==> r == (if selected_index == 0 {
            MainAction::TakePhoto
        } else if selected_index == 1 {
            MainAction::LoadImageList
        } else if selected_index == 2 {
            MainAction::StartLiveView
        } else if selected_index == 3 {
            MainAction::RefreshImages
        } else if selected_index == 4 {
            MainAction::Quit
        } else {
            MainAction::Nothing
        }),
        !(key == InputKey::Char('q') || key == InputKey::Up || key == InputKey::Down || key
            == InputKey::Char('d') || key == InputKey::Enter) ==> r == MainAction::Nothing,
{
    match key {
        InputKey::Char(c) => if c == 'q' {
            MainAction::Quit
        } else if c == 'd' {
            MainAction::ExploreApi
        } else {
            MainAction::Nothing
        },
        InputKey::Up => MainAction::SelectionUp,
        InputKey::Down => MainAction::SelectionDown,
        InputKey::Enter => if selected_index == 0 {
            MainAction::TakePhoto
        } else if selected_index == 1 {
            MainAction::LoadImageList
        } else if selected_index == 2 {
            MainAction::StartLiveView
        } else if selected_index == 3 {
            MainAction::RefreshImages
        } else if selected_index == 4 {
            MainAction::Quit
        } else {
            MainAction::Nothing
        },
        _ => MainAction::Nothing,
    }
}

/// What a key does in the image list.
#[derive(Clone, Copy, PartialEq, Eq, Structural, Debug)]
pub enum ImageListAction {
    /// Leave the application.
    Quit,
    /// Move the selection up.
    SelectionUp,
    /// Move the selection down.
    SelectionDown,
    /// Page up.
    PrevPage,
    /// Page down.
    NextPage,
    /// Jump to the first image.
    FirstImage,
    /// Jump to the last image.
    LastImage,
    /// Open the download screen for the selection.
    OpenDownloadScreen,
    /// There is nothing selected to download.
    NoSelectionForDownload,
    /// Open the delete screen for the selection.
    OpenDeleteScreen,
    /// There is nothing selected to delete.
    NoSelectionForDelete,
    /// View the selected image.
    ViewImage,
    /// There is nothing selected to view.
    NoSelectionToView,
    /// Refresh the image list.
    Refresh,
    /// Probe the camera's endpoints for diagnostics.
    ExploreApi,
    /// Back to the main menu.
    BackToMain,
    /// Nothing.
    Nothing,
}

/// The image list's mapping: navigation and paging keys move, the download,
/// delete and view keys act on the selection when there is one, refresh and
/// probe keys act on the camera, and escape returns to the menu.
pub fn image_list_action(key: InputKey, has_selection: bool) -> (r: ImageListAction)
    ensures
        key == InputKey::Char('q') ==> r == ImageListAction::Quit,
        key == InputKey::Up ==> r == ImageListAction::SelectionUp,
        key == InputKey::Down ==> r == ImageListAction::SelectionDown,
        key == InputKey::PageUp ==> r == ImageListAction::PrevPage,
        key == InputKey::PageDown ==> r == ImageListAction::NextPage,
        key == InputKey::Home ==> r == ImageListAction::FirstImage,
        key == InputKey::End ==> r == ImageListAction::LastImage,
        key == InputKey::Char('d') ==> r == (if has_selection {
            ImageListAction::OpenDownloadScreen
        } else {
            ImageListAction::NoSelectionForDownload
        }),
        key == InputKey::Delete ==> r == (if has_selection {
            ImageListAction::OpenDeleteScreen
        } else {
            ImageListAction::NoSelectionForDelete
        }),
        key == InputKey::Enter ==> r == (if has_selection {
            ImageListAction::ViewImage
        } else {
            ImageListAction::NoSelectionToView
        }),
        key == InputKey::Char('r') ==> r == ImageListAction::Refresh,
        key == InputKey::Char('a') ==> r == ImageListAction::ExploreApi,
        key == InputKey::Esc ==> r == ImageListAction::BackToMain,
        (key matches InputKey::Char(c) && c != 'q' && c != 'd' && c != 'r' && c != 'a') || key
            == InputKey::Other ==> r == ImageListAction::Nothing,
{
    match key {
        InputKey::Char(c) => if c == 'q' {
            ImageListAction::Quit
        } else if c == 'd' {
            if has_selection {
                ImageListAction::OpenDownloadScreen
            } else {
                ImageListAction::NoSelectionForDownload
            }
        } else if c == 'r' {
            ImageListAction::Refresh
        } else if c == 'a' {
            ImageListAction::ExploreApi
        } else {
            ImageListAction::Nothing
        },
        InputKey::Up => ImageListAction::SelectionUp,
        InputKey::Down => ImageListAction::SelectionDown,
        InputKey::PageUp => ImageListAction::PrevPage,
        InputKey::PageDown => ImageListAction::NextPage,
        InputKey::Home => ImageListAction::FirstImage,
        InputKey::End => ImageListAction::LastImage,
        InputKey::Delete => if has_selection {
            ImageListAction::OpenDeleteScreen
        } else {
            ImageListAction::NoSelectionForDelete
        },
        InputKey::Enter => if has_selection {
            ImageListAction::ViewImage
        } else {
            ImageListAction::NoSelectionToView
        },
        InputKey::Esc => ImageListAction::BackToMain,
        InputKey::Other => ImageListAction::Nothing,
    }
}

/// What a key does on the download and delete confirmation screens.
#[derive(Clone, Copy, PartialEq, Eq, Structural, Debug)]
pub enum TransferAction {
    /// Leave the application.
    Quit,
    /// Run the operation on the selected image.
    Confirm,
    /// Back to the image list.
    Cancel,
    /// Nothing.
    Nothing,
}

/// The confirmation screens' mapping: confirm runs the operation, escape
/// returns to the list.
pub fn transfer_action(key: InputKey) -> (r: TransferAction)
    ensures
        key == InputKey::Char('q') ==> r == TransferAction::Quit,
        key == InputKey::Enter ==> r == TransferAction::Confirm,
        key == InputKey::Esc ==> r == TransferAction::Cancel,
        !(key == InputKey::Char('q') || key == InputKey::Enter || key == InputKey::Esc) ==> r
            == TransferAction::Nothing,
{
    match key {
        InputKey::Char(c) => if c == 'q' {
            TransferAction::Quit
        } else {
            TransferAction::Nothing
        },
        InputKey::Enter => TransferAction::Confirm,
        InputKey::Esc => TransferAction::Cancel,
        _ => TransferAction::Nothing,
    }
}

/// What a key does in the image viewer.
#[derive(Clone, Copy, PartialEq, Eq, Structural, Debug)]
pub enum ImageViewerAction {
    /// Leave the application.
    Quit,
    /// Close the viewer, back to the image list.
    Close,
    /// Show the image full-screen.
    Display,
    /// Zoom in one step.
    ZoomIn,
    /// Zoom out one step.
    ZoomOut,
    /// Back to the natural size.
    ResetZoom,
    /// Toggle aspect-ratio preservation.
    ToggleAspect,
    /// Cycle the display method.
    CycleMethod,
    /// Fetch the image at a higher resolution.
    LoadHigherResolution,
    /// Nothing.
    Nothing,
}

/// The image viewer's mapping: show, zoom, aspect, method and resolution
/// keys drive the viewer; escape closes it.
pub fn image_viewer_action(key: InputKey) -> (r: ImageViewerAction)
    ensures
        key == InputKey::Char('q') ==> r == ImageViewerAction::Quit,
        key == InputKey::Esc ==> r == ImageViewerAction::Close,
        key == InputKey::Enter ==> r == ImageViewerAction::Display,
        key == InputKey::Char('+') || key == InputKey::Char('=') ==> r
            == ImageViewerAction::ZoomIn,
        key == InputKey::Char('-') ==> r == ImageViewerAction::ZoomOut,
        key == InputKey::Char('0') ==> r == ImageViewerAction::ResetZoom,
        key == InputKey::Char('a') ==> r == ImageViewerAction::ToggleAspect,
        key == InputKey::Char('d') ==> r == ImageViewerAction::CycleMethod,
        key == InputKey::Char('r') ==> r == ImageViewerAction::LoadHigherResolution,
        (key matches InputKey::Char(c) && c != 'q' && c != '+' && c != '=' && c != '-' && c != '0'
            && c != 'a' && c != 'd' && c != 'r') || !(key matches InputKey::Char(_) || key
            == InputKey::Esc || key == InputKey::Enter) ==> r == ImageViewerAction::Nothing,
{
    match key {
        InputKey::Char(c) => if c == 'q' {
            ImageViewerAction::Quit
        } else if c == '+' || c == '=' {
            ImageViewerAction::ZoomIn
        } else if c == '-' {
            ImageViewerAction::ZoomOut
        } else if c == '0' {
            ImageViewerAction::ResetZoom
        } else if c == 'a' {
            ImageViewerAction::ToggleAspect
        } else if c == 'd' {
            ImageViewerAction::CycleMethod
        } else if c == 'r' {
            ImageViewerAction::LoadHigherResolution
        } else {
            ImageViewerAction::Nothing
        },
        InputKey::Esc => ImageViewerAction::Close,
        InputKey::Enter => ImageViewerAction::Display,
        _ => ImageViewerAction::Nothing,
    }
}

/// What a key does in the video viewer.
#[derive(Clone, Copy, PartialEq, Eq, Structural, Debug)]
pub enum VideoViewerAction {
    /// Stop the stream and leave the application.
    QuitAndStop,
    /// Stop the stream, back to the main menu.
    CloseAndStop,
    /// Stop and start the stream over.
    Restart,
    /// Pause a playing stream, resume a paused one.
    TogglePlayback,
    /// Start or stop recording frames to a file.
    ToggleRecording,
    /// Stop, check the camera, and start over with diagnostics.
    Diagnostics,
    /// Nothing.
    Nothing,
}

/// The video viewer's mapping: restart, play/pause, recording and
/// diagnostics keys drive the session; escape stops it and returns to the
/// menu.
pub fn video_viewer_action(key: InputKey) -> (r: VideoViewerAction)
    ensures
        key == InputKey::Char('q') ==> r == VideoViewerAction::QuitAndStop,
        key == InputKey::Esc ==> r == VideoViewerAction::CloseAndStop,
        key == InputKey::Enter ==> r == VideoViewerAction::Restart,
        key == InputKey::Char(' ') ==> r == VideoViewerAction::TogglePlayback,
        key == InputKey::Char('r') ==> r == VideoViewerAction::ToggleRecording,
        key == InputKey::Char('d') ==> r == VideoViewerAction::Diagnostics,
        (key matches InputKey::Char(c) && c != 'q' && c != ' ' && c != 'r' && c != 'd') || !(key
            matches InputKey::Char(_) || key == InputKey::Esc || key == InputKey::Enter) ==> r
            == VideoViewerAction::Nothing,
{
    match key {
        InputKey::Char(c) => if c == 'q' {
            VideoViewerAction::QuitAndStop
        } else if c == ' ' {
            VideoViewerAction::TogglePlayback
        } else if c == 'r' {
            VideoViewerAction::ToggleRecording
        } else if c == 'd' {
            VideoViewerAction::Diagnostics
        } else {
            VideoViewerAction::Nothing
        },
        InputKey::Esc => VideoViewerAction::CloseAndStop,
        InputKey::Enter => VideoViewerAction::Restart,
        _ => VideoViewerAction::Nothing,
    }
}

} // verus!

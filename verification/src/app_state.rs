//! The terminal application's state: mode, image list, selection and
//! pagination, status line, and error dialog.
//!
//! Everything here is decision state; the camera connection and the files on
//! disk belong to the surrounding process.

use vstd::prelude::*;
use vstd::string::StringExecFns;

use crate::session::StreamSession;
use crate::viewer::ImageViewerState;

verus! {

/// Images shown per page of the image list.
pub const ITEMS_PER_PAGE: usize = 15;

/// Index of the last entry of the main menu.
pub const MAIN_MENU_MAX_INDEX: usize = 3;

/// The application's modes.
#[derive(Clone, Copy, PartialEq, Eq, Structural, Debug)]
pub enum AppMode {
    Main,
    ImageList,
    Downloading,
    Deleting,
    ViewingImage,
    ViewingVideo,
}

/// Application state.
pub struct AppState {
    /// Current application mode.
    pub mode: AppMode,
    /// Index of the currently selected item.
    pub selected_index: usize,
    /// Names of the images on the camera.
    pub images: Vec<String>,
    /// Status message.
    pub status: String,
    /// Images per page.
    pub items_per_page: usize,
    /// Current page of the image list.
    pub current_page_index: usize,
    /// Whether the error dialog is showing.
    pub show_error_dialog: bool,
    /// Error dialog title.
    pub error_title: String,
    /// Error dialog message.
    pub error_message: String,
    /// Image viewer state, when viewing an image.
    pub image_viewer: Option<ImageViewerState>,
    /// Streaming session state, when viewing video.
    pub video_session: Option<StreamSession>,
}

/// A well-formed state pages by the fixed page size, keeps the page inside
/// the list, and (a machine limit) never holds a list so long that page
/// arithmetic could leave the index range.
pub open spec fn wf(s: AppState) -> bool {
    &&& s.items_per_page == ITEMS_PER_PAGE
    &&& s.images@.len() + ITEMS_PER_PAGE <= usize::MAX
    &&& (s.current_page_index == 0 || s.current_page_index * ITEMS_PER_PAGE < s.images@.len())
}

/// The number of pages a list of `len` images fills: at least one, then one
/// per started page.
pub open spec fn spec_total_pages(len: int) -> int {
    if len == 0 {
        1
    } else {
        (len + ITEMS_PER_PAGE - 1) / ITEMS_PER_PAGE as int
    }
}

impl AppState {
    /// A fresh state over the given image list: main menu, first item
    /// selected, ready.
    pub fn new(images: Vec<String>) -> (r: AppState)
        requires
            images@.len() + ITEMS_PER_PAGE <= usize::MAX,
        ensures
            r.mode == AppMode::Main,
            r.selected_index == 0,
            r.images == images,
            r.status@ == "Ready"@,
            r.items_per_page == ITEMS_PER_PAGE,
            r.current_page_index == 0,
            !r.show_error_dialog,
            r.error_title@.len() == 0,
            r.error_message@.len() == 0,
            r.image_viewer is None,
            r.video_session is None,
            wf(r),
    {
        AppState {
            mode: AppMode::Main,
            selected_index: 0,
            images,
            status: String::from_str("Ready"),
            items_per_page: ITEMS_PER_PAGE,
            current_page_index: 0,
            show_error_dialog: false,
            error_title: String::new(),
            error_message: String::new(),
            image_viewer: None,
            video_session: None,
        }
    }

    /// Set the error dialog's title and message.
    pub fn set_error_message(&mut self, title: &str, message: &str)
        ensures
            *final(self) == (AppState {
                error_title: final(self).error_title,
                error_message: final(self).error_message,
                ..*old(self)
            }),
            final(self).error_title@ == title@,
            final(self).error_message@ == message@,
    {
        self.error_title = String::from_str(title);
        self.error_message = String::from_str(message);
    }

    /// Show or hide the error dialog.
    pub fn set_show_error_dialog(&mut self, show: bool)
        ensures
            *final(self) == (AppState { show_error_dialog: show, ..*old(self) }),
    {
        self.show_error_dialog = show;
    }

    /// Dismiss the error dialog.
    pub fn dismiss_error_dialog(&mut self)
        ensures
            *final(self) == (AppState { show_error_dialog: false, ..*old(self) }),
    {
        self.show_error_dialog = false;
    }

    /// Update the status message.
    pub fn set_status(&mut self, status: &str)
        ensures
            *final(self) == (AppState { status: final(self).status, ..*old(self) }),
            final(self).status@ == status@,
    {
        self.status = String::from_str(status);
    }

    /// Switch the application mode. Moving to an operation screen (download,
    /// delete, view) keeps the selection; any other switch resets it.
    pub fn set_mode(&mut self, mode: AppMode)
        ensures
            *final(self) == (AppState {
                mode,
                selected_index: if mode is Downloading || mode is Deleting
                    || mode is ViewingImage {
                    old(self).selected_index
                } else {
                    0
                },
                ..*old(self)
            }),
    {
        let preserve_selection = matches!(mode, AppMode::Downloading) || matches!(
            mode,
            AppMode::Deleting,
        ) || matches!(mode, AppMode::ViewingImage);
        self.mode = mode;
        if !preserve_selection {
            self.selected_index = 0;
        }
    }

    /// The largest selectable index in the current mode: the main menu's last
    /// entry, the last image, or nothing to select.
    pub fn get_max_index(&self) -> (r: usize)
        ensures
            self.mode is Main ==> r == MAIN_MENU_MAX_INDEX,
            self.mode is ImageList ==> r == if self.images@.len() == 0 {
                0int
            } else {
                self.images@.len() - 1
            },
            !(self.mode is Main) && !(self.mode is ImageList) ==> r == 0,
    {
        match self.mode {
            AppMode::Main => MAIN_MENU_MAX_INDEX,
            AppMode::ImageList => if self.images.len() == 0 {
                0
            } else {
                self.images.len() - 1
            },
            _ => 0,
        }
    }

    /// The index of the first image on the current page.
    pub fn page_start_index(&self) -> (r: usize)
        requires
            wf(*self),
        ensures
            r == self.current_page_index * ITEMS_PER_PAGE,
    {
        self.current_page_index * self.items_per_page
    }

    /// One past the index of the last image on the current page.
    pub fn page_end_index(&self) -> (r: usize)
        requires
            wf(*self),
        ensures
            r == if self.current_page_index * ITEMS_PER_PAGE + ITEMS_PER_PAGE
                <= self.images@.len() {
                self.current_page_index * ITEMS_PER_PAGE + ITEMS_PER_PAGE
            } else {
                self.images@.len() as int
            },
    {
        let start = self.page_start_index();
        let end = start + self.items_per_page;
        if end <= self.images.len() {
            end
        } else {
            self.images.len()
        }
    }

    /// How many pages the image list fills.
    pub fn total_pages(&self) -> (r: usize)
        requires
            wf(*self),
        ensures
            r == spec_total_pages(self.images@.len() as int),
            r >= 1,
    {
        if self.images.len() == 0 {
            1
        } else {
            (self.images.len() + self.items_per_page - 1) / self.items_per_page
        }
    }

    /// Move the selection up one item; in the image list the page follows the
    /// selection.
    pub fn selection_up(&mut self)
        requires
            wf(*old(self)),
        ensures
            wf(*final(self)),
            old(self).selected_index == 0 ==> *final(self) == *old(self),
            old(self).selected_index > 0 ==> *final(self) == (AppState {
                selected_index: (old(self).selected_index - 1) as usize,
                current_page_index: (if old(self).mode is ImageList && old(self).selected_index - 1
                    < old(self).current_page_index * ITEMS_PER_PAGE {
                    if old(self).current_page_index == 0 {
                        0int
                    } else {
                        old(self).current_page_index - 1
                    }
                } else {
                    old(self).current_page_index as int
                }) as usize,
                ..*old(self)
            }),
    {
        if self.selected_index > 0 {
            self.selected_index = self.selected_index - 1;
            if matches!(self.mode, AppMode::ImageList) {
                let start_idx = self.page_start_index();
                if self.selected_index < start_idx {
                    if self.current_page_index > 0 {
                        self.current_page_index = self.current_page_index - 1;
                    }
                }
            }
        }
    }

    /// Move the selection down one item, never past the mode's maximum; in
    /// the image list the page follows the selection.
    pub fn selection_down(&mut self)
        requires
            wf(*old(self)),
        ensures
            wf(*final(self)),
            ({
                let max = if old(self).mode is Main {
                    MAIN_MENU_MAX_INDEX as int
                } else if old(self).mode is ImageList {
                    if old(self).images@.len() == 0 {
                        0int
                    } else {
                        old(self).images@.len() - 1
                    }
                } else {
                    0int
                };
                &&& old(self).selected_index >= max ==> *final(self) == *old(self)
                &&& old(self).selected_index < max ==> final(self).selected_index == old(
                    self,
                ).selected_index + 1 && *final(self) == (AppState {
                    selected_index: final(self).selected_index,
                    current_page_index: final(self).current_page_index,
                    ..*old(self)
                })
            }),
    {
        let max = self.get_max_index();
        if self.selected_index < max {
            self.selected_index = self.selected_index + 1;
            if matches!(self.mode, AppMode::ImageList) {
                let end_idx = self.page_end_index();
                if self.selected_index >= end_idx {
                    let total = self.total_pages();
                    if self.current_page_index < total - 1 {
                        self.current_page_index = self.current_page_index + 1;
                        proof {
                            lemma_page_in_range(
                                self.current_page_index as int,
                                self.images@.len() as int,
                            );
                        }
                    }
                }
            }
        }
    }

    /// Move to the next page, selecting its first image.
    pub fn next_page(&mut self)
        requires
            wf(*old(self)),
        ensures
            wf(*final(self)),
            old(self).current_page_index + 1 >= spec_total_pages(old(self).images@.len() as int)
                ==> *final(self) == *old(self),
            old(self).current_page_index + 1 < spec_total_pages(old(self).images@.len() as int)
                ==> *final(self) == (AppState {
                current_page_index: (old(self).current_page_index + 1) as usize,
                selected_index: ((old(self).current_page_index + 1) * ITEMS_PER_PAGE) as usize,
                ..*old(self)
            }),
    {
        let total = self.total_pages();
        if self.current_page_index < total - 1 {
            self.current_page_index = self.current_page_index + 1;
            proof {
                lemma_page_in_range(self.current_page_index as int, self.images@.len() as int);
            }
            self.selected_index = self.page_start_index();
        }
    }

    /// Move to the previous page, selecting its first image.
    pub fn prev_page(&mut self)
        requires
            wf(*old(self)),
        ensures
            wf(*final(self)),
            old(self).current_page_index == 0 ==> *final(self) == *old(self),
            old(self).current_page_index > 0 ==> *final(self) == (AppState {
                current_page_index: (old(self).current_page_index - 1) as usize,
                selected_index: ((old(self).current_page_index - 1) * ITEMS_PER_PAGE) as usize,
                ..*old(self)
            }),
    {
        if self.current_page_index > 0 {
            self.current_page_index = self.current_page_index - 1;
            self.selected_index = self.page_start_index();
        }
    }

    /// Jump to the first image.
    pub fn first_image(&mut self)
        ensures
            *final(self) == (AppState { selected_index: 0, current_page_index: 0, ..*old(self) }),
            wf(*old(self)) ==> wf(*final(self)),
    {
        self.selected_index = 0;
        self.current_page_index = 0;
    }

    /// Jump to the last image, on its page. With no images nothing moves.
    pub fn last_image(&mut self)
        requires
            wf(*old(self)),
        ensures
            wf(*final(self)),
            old(self).images@.len() == 0 ==> *final(self) == *old(self),
            old(self).images@.len() > 0 ==> *final(self) == (AppState {
                selected_index: (old(self).images@.len() - 1) as usize,
                current_page_index: (spec_total_pages(old(self).images@.len() as int) - 1) as usize,
                ..*old(self)
            }),
    {
        if self.images.len() > 0 {
            self.selected_index = self.images.len() - 1;
            let total = self.total_pages();
            self.current_page_index = total - 1;
            proof {
                lemma_last_page_in_range(self.images@.len() as int);
            }
        }
    }

    /// The currently selected image's name, when the selection is valid.
    pub fn selected_image(&self) -> (r: Option<&String>)
        ensures
            self.images@.len() == 0 || self.selected_index >= self.images@.len() ==> r is None,
            self.images@.len() > 0 && self.selected_index < self.images@.len() ==> r == Some(
                &self.images@[self.selected_index as int],
            ),
    {
        if self.images.len() == 0 || self.selected_index >= self.images.len() {
            None
        } else {
            Some(&self.images[self.selected_index])
        }
    }

    /// Replace the image list after a refresh: back to the first page, and a
    /// selection past the new end moves to the last image.
    pub fn set_images(&mut self, images: Vec<String>)
        requires
            wf(*old(self)),
            images@.len() + ITEMS_PER_PAGE <= usize::MAX,
        ensures
            wf(*final(self)),
            final(self).images == images,
            final(self).current_page_index == 0,
            final(self).selected_index == if images@.len() > 0 && old(self).selected_index
                >= images@.len() {
                images@.len() - 1
            } else {
                old(self).selected_index as int
            },
            *final(self) == (AppState {
                images: final(self).images,
                current_page_index: 0,
                selected_index: final(self).selected_index,
                ..*old(self)
            }),
    {
        self.images = images;
        self.current_page_index = 0;
        if self.images.len() > 0 && self.selected_index >= self.images.len() {
            self.selected_index = self.images.len() - 1;
        }
    }
}

/// A page below the total always starts inside the list.
proof fn lemma_page_in_range(page: int, len: int)
    requires
        len >= 0,
        0 <= page < spec_total_pages(len),
    ensures
        page == 0 || page * ITEMS_PER_PAGE < len,
{
    if page > 0 {
        assert(page <= (len + ITEMS_PER_PAGE - 1) / ITEMS_PER_PAGE as int - 1);
        assert(page * ITEMS_PER_PAGE < len) by (nonlinear_arith)
            requires
                page >= 1,
                len >= 1,
                ITEMS_PER_PAGE == 15,
                page <= (len + 14) / 15 - 1,
        ;
    }
}

/// The last page starts inside the list.
proof fn lemma_last_page_in_range(len: int)
    requires
        len >= 1,
    ensures
        spec_total_pages(len) - 1 == 0 || (spec_total_pages(len) - 1) * ITEMS_PER_PAGE < len,
{
    lemma_page_in_range(spec_total_pages(len) - 1, len);
}

} // verus!

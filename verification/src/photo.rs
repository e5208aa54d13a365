//! The photo bubble of a message row.
//!
//! A photo message offers the same picture in several sizes; the row picks
//! one by the screen's scale factor, shows its aspect ratio at once, and
//! either decodes the picture from the local copy or asks the downloader
//! for it, forwarding progress reports as they arrive.

use vstd::prelude::*;

verus! {

/// What the photo row reads of one file held by the downloader: the
/// identifier under which the downloader knows it, the size the server
/// announced, and the state of the local copy.
#[derive(Clone, Debug)]
pub struct FileInfo {
    /// Identifier the downloader is asked for.
    pub id: i32,
    /// Size in bytes the download is expected to reach.
    pub expected_size: i64,
    /// Bytes of the file already on disk.
    pub downloaded_size: i64,
    /// Whether the local copy is complete.
    pub is_downloading_completed: bool,
    /// Path of the local copy; meaningful once the download completed.
    pub local_path: String,
}

/// One of the sizes a photo is offered in. The kind is the one-letter
/// thumbnail tag the photo service assigns ('s', 'm', 'x', 'y', 'w', ...);
/// the list of sizes of a photo is ordered from smallest to largest.
#[derive(Clone, Debug)]
pub struct PhotoSize {
    /// One-letter thumbnail tag of this size.
    pub kind: char,
    /// Width in pixels.
    pub width: i32,
    /// Height in pixels.
    pub height: i32,
    /// The file that holds the picture in this size.
    pub file: FileInfo,
}

/// The thumbnail kind preferred at a given scale factor: the 1280px tag
/// 'y' on a high-density screen, the 800px tag 'x' otherwise. Above scale
/// factor 2 no kind is preferred; the largest size is taken outright.
pub open spec fn wanted_kind(scale_factor: int) -> char {
    if scale_factor > 1 {
        'y'
    } else {
        'x'
    }
}

/// Whether some entry of `sizes` carries the thumbnail tag `kind`.
pub open spec fn has_kind(sizes: Seq<PhotoSize>, kind: char) -> bool {
    exists|i: int| 0 <= i < sizes.len() && sizes[i].kind == kind
}

/// Whether `i` is the first entry of `sizes` carrying the tag `kind`.
pub open spec fn is_first_of_kind(sizes: Seq<PhotoSize>, kind: char, i: int) -> bool {
    &&& 0 <= i < sizes.len()
    &&& sizes[i].kind == kind
    &&& forall|j: int| 0 <= j < i ==> sizes[j].kind != kind
}

/// Which entry of `sizes` the row displays at `scale_factor`: above scale
/// factor 2 the last (largest) entry; otherwise the first entry of the
/// wanted kind, or the last entry where no entry carries it.
pub open spec fn is_selected_size(scale_factor: int, sizes: Seq<PhotoSize>, i: int) -> bool {
    if scale_factor > 2 {
        i == sizes.len() - 1
    } else if has_kind(sizes, wanted_kind(scale_factor)) {
        is_first_of_kind(sizes, wanted_kind(scale_factor), i)
    } else {
        i == sizes.len() - 1
    }
}

/// Picks the size to display: the index `i` is the one entry that
/// `is_selected_size` admits for this scale factor.
pub fn select_photo_size(scale_factor: i32, sizes: &Vec<PhotoSize>) -> (i: usize)
    requires
        sizes@.len() > 0,
    ensures
        i < sizes@.len(),
        is_selected_size(scale_factor as int, sizes@, i as int),
{
    if scale_factor > 2 {
        sizes.len() - 1
    } else {
        let wanted: char = if scale_factor > 1 {
            'y'
        } else {
            'x'
        };
        let mut i: usize = 0;
        while i < sizes.len()
            invariant
                i <= sizes@.len(),
                scale_factor <= 2,
                wanted == wanted_kind(scale_factor as int),
                forall|j: int| 0 <= j < i ==> sizes@[j].kind != wanted,
            decreases sizes@.len() - i,
        {
            if sizes[i].kind == wanted {
                proof {
                    assert(sizes@[i as int].kind == wanted);
                    assert(has_kind(sizes@, wanted));
                }
                return i;
            }
            i = i + 1;
        }
        sizes.len() - 1
    }
}

/// The content of a message, reduced to what the photo row reads of it.
/// A row is handed photo messages; anything else leaves it untouched.
pub enum MessageContentInfo {
    /// A photo message: its caption and the sizes the picture is offered in.
    Photo(PhotoInfo),
    /// Any other kind of content.
    Other,
}

/// The parts of a photo message the row binds to widgets.
pub struct PhotoInfo {
    /// Caption text, shown under the picture.
    pub caption: String,
    /// The sizes the picture is offered in, smallest to largest.
    pub sizes: Vec<PhotoSize>,
}

/// What the row does with the photo once a size is picked.
#[derive(Clone, Debug, PartialEq)]
pub enum PhotoAction {
    /// The local copy is complete: decode the picture at this path and show
    /// the download as finished.
    Load { path: String },
    /// The local copy is not complete: show the download as not begun and
    /// ask the downloader for this file.
    Download { file_id: i32 },
}

/// How the row presents a photo message: which entry of the size list it
/// shows, that entry's aspect ratio, and whether the picture is read from
/// disk at once or fetched first.
#[derive(Clone, Debug, PartialEq)]
pub struct DisplayPlan {
    /// Index of the displayed entry in the message's size list.
    pub size_index: usize,
    /// Width of the displayed entry, fixing the bubble's aspect ratio.
    pub aspect_width: i32,
    /// Height of the displayed entry, fixing the bubble's aspect ratio.
    pub aspect_height: i32,
    /// How the picture itself is obtained.
    pub action: PhotoAction,
}

/// Whether `plan` presents exactly the size entry `s`: the aspect ratio is
/// that of `s`, and the action loads `s`'s local copy when it is complete,
/// or requests `s`'s file when it is not.
pub open spec fn plan_shows_size(plan: DisplayPlan, s: PhotoSize) -> bool {
    &&& plan.aspect_width == s.width
    &&& plan.aspect_height == s.height
    &&& (s.file.is_downloading_completed ==> plan.action == (PhotoAction::Load {
        path: s.file.local_path,
    }))
    &&& (!s.file.is_downloading_completed ==> plan.action == (PhotoAction::Download {
        file_id: s.file.id,
    }))
}

/// Plans the presentation of `content` at `scale_factor`: a plan comes back
/// exactly for photo content, and it presents the selected size entry.
pub fn plan_photo_display(scale_factor: i32, content: &MessageContentInfo) -> (plan: Option<
    DisplayPlan,
>)
    requires
        content matches MessageContentInfo::Photo(photo) ==> photo.sizes@.len() > 0,
    ensures
        (plan is Some) <==> (content is Photo),
        content matches MessageContentInfo::Photo(photo) ==> (plan matches Some(p)
            && is_selected_size(scale_factor as int, photo.sizes@, p.size_index as int)
            && plan_shows_size(p, photo.sizes@[p.size_index as int])),
{
    match content {
        MessageContentInfo::Photo(photo) => {
            let i = select_photo_size(scale_factor, &photo.sizes);
            let s = &photo.sizes[i];
            let action = if s.file.is_downloading_completed {
                PhotoAction::Load { path: s.file.local_path.clone() }
            } else {
                PhotoAction::Download { file_id: s.file.id }
            };
            Some(
                DisplayPlan {
                    size_index: i,
                    aspect_width: s.width,
                    aspect_height: s.height,
                    action,
                },
            )
        },
        MessageContentInfo::Other => None,
    }
}

/// The caption of a photo message, bound to the bubble's caption label.
/// Only photo content reaches the row, so other content is ruled out.
pub fn photo_caption(content: &MessageContentInfo) -> (caption: &String)
    requires
        content is Photo,
    ensures
        content matches MessageContentInfo::Photo(photo) && caption == photo.caption,
{
    match content {
        MessageContentInfo::Photo(photo) => &photo.caption,
        MessageContentInfo::Other => unreached(),
    }
}

/// One report from the downloader about a file the row asked for.
#[derive(Clone, Debug, PartialEq)]
pub enum DownloadUpdate {
    /// The file arrived: show the download as finished and decode the
    /// picture at this path.
    Completed { path: String },
    /// The download is still under way: show `downloaded_size` out of
    /// `expected_size` bytes of progress.
    InProgress { downloaded_size: i64, expected_size: i64 },
}

/// Turns a downloader report into what the row presents: the finished
/// picture once the local copy is complete, a progress fraction before.
pub fn handle_file_update(file: FileInfo) -> (update: DownloadUpdate)
    ensures
        file.is_downloading_completed ==> update == (DownloadUpdate::Completed {
            path: file.local_path,
        }),
        !file.is_downloading_completed ==> update == (DownloadUpdate::InProgress {
            downloaded_size: file.downloaded_size,
            expected_size: file.expected_size,
        }),
{
    if file.is_downloading_completed {
        DownloadUpdate::Completed { path: file.local_path }
    } else {
        DownloadUpdate::InProgress {
            downloaded_size: file.downloaded_size,
            expected_size: file.expected_size,
        }
    }
}

/// What a row does when it is handed a message: nothing when it already
/// shows that message, otherwise it rebinds.
#[derive(Clone, Copy, Debug, PartialEq, Eq, Structural)]
pub enum MessageChange {
    /// The row already shows this message.
    Keep,
    /// Bind to the new message; `disconnect_old` says whether bindings to a
    /// previously shown message must be dropped first.
    Replace { disconnect_old: bool },
}

/// Plans the rebinding of a row that shows `current` (by message id, `None`
/// for a fresh row) and is handed the message `new`.
pub fn plan_message_change(current: Option<i64>, new: i64) -> (change: MessageChange)
    ensures
        (change == MessageChange::Keep) <==> (current == Some(new)),
        current != Some(new) ==> change == (MessageChange::Replace {
            disconnect_old: current is Some,
        }),
{
    match current {
        Some(shown) => {
            if shown == new {
                MessageChange::Keep
            } else {
                MessageChange::Replace { disconnect_old: true }
            }
        },
        None => MessageChange::Replace { disconnect_old: false },
    }
}

/// The selection relation admits one index only: picking a size is
/// deterministic.
pub proof fn lemma_selected_size_unique(
    scale_factor: int,
    sizes: Seq<PhotoSize>,
    i: int,
    j: int,
)
    requires
        is_selected_size(scale_factor, sizes, i),
        is_selected_size(scale_factor, sizes, j),
    ensures
        i == j,
{
}

} // verus!

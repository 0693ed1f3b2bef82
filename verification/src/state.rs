//! The list of open images, which of them is selected, and the state of an
//! export in progress.

use vstd::prelude::*;

verus! {

/// A report from a running export.
pub enum ExportMessage {
    /// `.0` of `.1` images are done; `.2` is the text to show.
    Progress(usize, usize, String),
    /// Every image was handled.
    Finished,
    /// The export stopped with this error text.
    Error(String),
}

/// The text shown once an export has finished.
pub open spec fn finished_text() -> Seq<char> {
    "导出完成!"@
}

/// The text shown while an export is being prepared.
pub open spec fn preparing_text() -> Seq<char> {
    "准备导出..."@
}

/// The prefix of the error shown when an export fails.
pub open spec fn failure_prefix() -> Seq<char> {
    "导出失败: "@
}

/// The status text after the messages `msgs` arrived, starting from `text`:
/// a progress report shows its text, the end of the export shows
/// `finished_text()`, an error leaves the text as it is.
pub open spec fn text_after(text: Seq<char>, msgs: Seq<ExportMessage>) -> Seq<char>
    decreases msgs.len(),
{
    if msgs.len() == 0 {
        text
    } else {
        let before = text_after(text, msgs.drop_last());
        match msgs.last() {
            ExportMessage::Progress(_, _, t) => t@,
            ExportMessage::Finished => finished_text(),
            ExportMessage::Error(_) => before,
        }
    }
}

/// Some message among `msgs` reports the end of the export.
pub open spec fn has_finished(msgs: Seq<ExportMessage>) -> bool {
    exists|i: int| 0 <= i < msgs.len() && #[trigger] msgs[i] is Finished
}

/// The text of the last error among `msgs`, if there is one.
pub open spec fn last_error(msgs: Seq<ExportMessage>) -> Option<Seq<char>>
    decreases msgs.len(),
{
    if msgs.len() == 0 {
        None
    } else {
        match msgs.last() {
            ExportMessage::Error(e) => Some(e@),
            _ => last_error(msgs.drop_last()),
        }
    }
}

/// The state of the application apart from what is drawn: the open images
/// of type `T`, the selection, the export state and the pending error.
pub struct AppState<T> {
    /// The open images, in the order they were added.
    pub images: Vec<T>,
    /// The position of the selected image.
    pub selected_index: Option<usize>,
    /// An export is running.
    pub is_exporting: bool,
    /// The status text of the export.
    pub export_message: String,
    /// An error to show to the user.
    pub error_message: Option<String>,
    /// The user is being asked to confirm overwriting the originals.
    pub show_overwrite_confirmation: bool,
}

impl<T> AppState<T> {
    /// The selection points at an image exactly when there are images.
    pub open spec fn selection_valid(&self) -> bool {
        match self.selected_index {
            Some(i) => i < self.images@.len(),
            None => self.images@.len() == 0,
        }
    }

    /// Export flags, texts and the selection are those of `other`.
    pub open spec fn same_status(&self, other: &Self) -> bool {
        &&& self.is_exporting == other.is_exporting
        &&& self.export_message@ == other.export_message@
        &&& self.error_message == other.error_message
        &&& self.show_overwrite_confirmation == other.show_overwrite_confirmation
    }

    /// A state with no images, nothing selected and no export.
    pub fn new() -> (s: Self)
        ensures
            s.images@.len() == 0,
            s.selected_index is None,
            !s.is_exporting,
            s.export_message@.len() == 0,
            s.error_message is None,
            !s.show_overwrite_confirmation,
            s.selection_valid(),
    {
        AppState {
            images: Vec::new(),
            selected_index: None,
            is_exporting: false,
            export_message: String::new(),
            error_message: None,
            show_overwrite_confirmation: false,
        }
    }

    /// Appends an image; the first image added to an empty list is selected.
    pub fn add_image(&mut self, image: T)
        ensures
            final(self).images@ == old(self).images@.push(image),
            final(self).selected_index == (if old(self).images@.len() == 0 {
                Some(0usize)
            } else {
                old(self).selected_index
            }),
            final(self).same_status(old(self)),
            old(self).selection_valid() ==> final(self).selection_valid(),
    {
        self.images.push(image);
        if self.images.len() == 1 {
            self.selected_index = Some(0);
        }
    }

    /// Appends the images in order, as `add_image` does one by one.
    pub fn add_images(&mut self, images: Vec<T>)
        ensures
            final(self).images@ == old(self).images@ + images@,
            final(self).selected_index == (if old(self).images@.len() == 0 && images@.len() > 0 {
                Some(0usize)
            } else {
                old(self).selected_index
            }),
            final(self).same_status(old(self)),
            old(self).selection_valid() ==> final(self).selection_valid(),
    {
        let ghost start = self.images@;
        let ghost start_sel = self.selected_index;
        let ghost all = images@;
        let mut rest = images;
        while rest.len() > 0
            invariant
                self.images@ + rest@ == start + all,
                self.images@.len() >= start.len(),
                self.images@.subrange(0, start.len() as int) == start,
                start == old(self).images@,
                start_sel == old(self).selected_index,
                self.selected_index == (if start.len() == 0 && self.images@.len() > 0 {
                    Some(0usize)
                } else {
                    start_sel
                }),
                self.same_status(old(self)),
                (match start_sel {
                    Some(i) => i < start.len(),
                    None => start.len() == 0,
                }) ==> self.selection_valid(),
            decreases rest@.len(),
        {
            let ghost before = self.images@;
            let ghost rest_before = rest@;
            let image = rest.remove(0);
            self.add_image(image);
            assert(self.images@ + rest@ =~= before + rest_before);
            assert(self.images@.subrange(0, start.len() as int) =~= before.subrange(0, start.len() as int));
        }
        assert(self.images@ =~= start + all);
    }

    /// The selected image, if the selection points at one.
    pub fn get_selected_image(&self) -> (r: Option<&T>)
        ensures
            r is Some <==> (self.selected_index matches Some(i) && i < self.images@.len()),
            r matches Some(x) ==> *x == self.images@[self.selected_index.unwrap() as int],
    {
        match self.selected_index {
            Some(idx) => {
                if idx < self.images.len() {
                    Some(&self.images[idx])
                } else {
                    None
                }
            },
            None => None,
        }
    }

    /// Selects the image at `index`; an index past the end is ignored.
    pub fn select_image(&mut self, index: usize)
        ensures
            final(self).images@ == old(self).images@,
            final(self).selected_index == (if index < old(self).images@.len() {
                Some(index)
            } else {
                old(self).selected_index
            }),
            final(self).same_status(old(self)),
            old(self).selection_valid() ==> final(self).selection_valid(),
    {
        if index < self.images.len() {
            self.selected_index = Some(index);
        }
    }

    /// Closes all images.
    pub fn clear_images(&mut self)
        ensures
            final(self).images@.len() == 0,
            final(self).selected_index is None,
            final(self).same_status(old(self)),
            final(self).selection_valid(),
    {
        self.images.clear();
        self.selected_index = None;
    }

    /// Closes the image at `index`; an index past the end is ignored.
    ///
    /// A selection after the closed image, or on it, moves one back (but not
    /// before the first image), so that an image other than the closed one
    /// stays selected; when no image is left nothing is selected.
    pub fn remove_image(&mut self, index: usize)
        ensures
            index < old(self).images@.len() ==> final(self).images@ == old(self).images@.remove(
                index as int,
            ),
            index >= old(self).images@.len() ==> final(self).images@ == old(self).images@,
            final(self).selected_index == (if index < old(self).images@.len() {
                match old(self).selected_index {
                    Some(s) => if s >= index && s > 0 {
                        Some((s - 1) as usize)
                    } else if old(self).images@.len() == 1 {
                        None
                    } else {
                        Some(s)
                    },
                    None => None,
                }
            } else {
                old(self).selected_index
            }),
            final(self).same_status(old(self)),
            old(self).selection_valid() ==> final(self).selection_valid(),
            match old(self).selected_index {
                Some(s) => s != index && s < old(self).images@.len() && index < old(self).images@.len()
                    ==> (final(self).selected_index matches Some(t) && t < final(self).images@.len()
                    && final(self).images@[t as int] == old(self).images@[s as int]),
                None => true,
            },
    {
        if index < self.images.len() {
            self.images.remove(index);
            if let Some(selected) = self.selected_index {
                if selected >= index && selected > 0 {
                    self.selected_index = Some(selected - 1);
                } else if self.images.len() == 0 {
                    self.selected_index = None;
                }
            }
        }
    }

    /// Shows `message` as the pending error.
    pub fn set_error(&mut self, message: String)
        ensures
            final(self).error_message == Some(message),
            final(self).images@ == old(self).images@,
            final(self).selected_index == old(self).selected_index,
            final(self).is_exporting == old(self).is_exporting,
            final(self).export_message@ == old(self).export_message@,
            final(self).show_overwrite_confirmation == old(self).show_overwrite_confirmation,
    {
        self.error_message = Some(message);
    }

    /// Drops the pending error.
    pub fn clear_error(&mut self)
        ensures
            final(self).error_message is None,
            final(self).images@ == old(self).images@,
            final(self).selected_index == old(self).selected_index,
            final(self).is_exporting == old(self).is_exporting,
            final(self).export_message@ == old(self).export_message@,
            final(self).show_overwrite_confirmation == old(self).show_overwrite_confirmation,
    {
        self.error_message = None;
    }

    /// There is at least one open image.
    pub fn has_images(&self) -> (b: bool)
        ensures
            b == (self.images@.len() > 0),
    {
        !self.images.is_empty()
    }

    /// The selected image for changing it in place, if the selection points
    /// at one.
    pub fn get_selected_image_mut(&mut self) -> (r: Option<&mut T>)
        ensures
            r is Some <==> (old(self).selected_index matches Some(i) && i < old(self).images@.len()),
            r matches Some(x) ==> {
                let i = old(self).selected_index.unwrap() as int;
                &&& *x == old(self).images@[i]
                &&& final(self).images@ == old(self).images@.update(i, *final(x))
            },
            r is None ==> final(self).images@ == old(self).images@,
            final(self).selected_index == old(self).selected_index,
            final(self).same_status(old(self)),
    {
        match self.selected_index {
            Some(idx) => {
                if idx < self.images.len() {
                    Some(&mut self.images[idx])
                } else {
                    None
                }
            },
            None => None,
        }
    }

    /// Marks an export as started: the status text says that it is being
    /// prepared and the pending error is dropped.
    pub fn begin_export(&mut self)
        ensures
            final(self).is_exporting,
            final(self).export_message@ == preparing_text(),
            final(self).error_message is None,
            final(self).images@ == old(self).images@,
            final(self).selected_index == old(self).selected_index,
            final(self).show_overwrite_confirmation == old(self).show_overwrite_confirmation,
    {
        self.is_exporting = true;
        self.export_message = String::from_str("准备导出...");
        self.error_message = None;
    }

    /// Asks the user to confirm overwriting the original files, when there
    /// are images to export.
    pub fn request_overwrite(&mut self)
        ensures
            final(self).show_overwrite_confirmation == (old(self).show_overwrite_confirmation
                || old(self).images@.len() > 0),
            final(self).images@ == old(self).images@,
            final(self).selected_index == old(self).selected_index,
            final(self).is_exporting == old(self).is_exporting,
            final(self).export_message@ == old(self).export_message@,
            final(self).error_message == old(self).error_message,
    {
        if !self.has_images() {
            return;
        }
        self.show_overwrite_confirmation = true;
    }

    /// Takes in the reports that a running export sent since the last call,
    /// in the order they were sent, and tells whether the export has ended.
    ///
    /// The status text follows the reports. The export ends when a report
    /// says it finished or failed; on failure the last error is shown with
    /// `failure_prefix()` before it.
    pub fn apply_export_messages(&mut self, messages: Vec<ExportMessage>) -> (ended: bool)
        ensures
            ended == (has_finished(messages@) || last_error(messages@) is Some),
            ended <==> exists|i: int|
                0 <= i < messages@.len() && (#[trigger] messages@[i] is Finished
                    || messages@[i] is Error),
            (exists|i: int| 0 <= i < messages@.len() && #[trigger] messages@[i] is Finished) ==> ended
                && !final(self).is_exporting,
            (exists|i: int| 0 <= i < messages@.len() && #[trigger] messages@[i] is Error) ==> ended
                && !final(self).is_exporting && final(self).error_message is Some,
            !ended ==> final(self).is_exporting == old(self).is_exporting && final(self).error_message
                == old(self).error_message,
            (forall|i: int| 0 <= i < messages@.len() ==> #[trigger] messages@[i] is Error)
                ==> final(self).export_message@ == old(self).export_message@,
            forall|i: int|
                0 <= i < messages@.len() && !(#[trigger] messages@[i] is Error) && (forall|j: int|
                    i < j < messages@.len() ==> messages@[j] is Error) ==> final(self).export_message@
                    == (match messages@[i] {
                    ExportMessage::Progress(_, _, t) => t@,
                    _ => "导出完成!"@,
                }),
            final(self).export_message@ == text_after(old(self).export_message@, messages@),
            final(self).is_exporting == (old(self).is_exporting && !ended),
            (match last_error(messages@) {
                Some(e) => final(self).error_message matches Some(m) && m@ == failure_prefix() + e,
                None => final(self).error_message == old(self).error_message,
            }),
            final(self).images@ == old(self).images@,
            final(self).selected_index == old(self).selected_index,
            final(self).show_overwrite_confirmation == old(self).show_overwrite_confirmation,
    {
        let mut finished = false;
        let mut error: Option<String> = None;
        let n = messages.len();
        let mut i: usize = 0;
        while i < n
            invariant
                n == messages@.len(),
                i <= n,
                finished == has_finished(messages@.take(i as int)),
                (match last_error(messages@.take(i as int)) {
                    Some(e) => error matches Some(s) && s@ == e,
                    None => error is None,
                }),
                self.export_message@ == text_after(old(self).export_message@, messages@.take(i as int)),
                self.is_exporting == old(self).is_exporting,
                self.error_message == old(self).error_message,
                self.images@ == old(self).images@,
                self.selected_index == old(self).selected_index,
                self.show_overwrite_confirmation == old(self).show_overwrite_confirmation,
            decreases n - i,
        {
            let ghost prefix = messages@.take(i as int);
            let ghost next = messages@.take(i + 1);
            assert(next.drop_last() =~= prefix);
            assert(next.last() == messages@[i as int]);
            match &messages[i] {
                ExportMessage::Progress(_, _, text) => {
                    self.export_message = text.clone();
                },
                ExportMessage::Finished => {
                    finished = true;
                    self.export_message = String::from_str("导出完成!");
                },
                ExportMessage::Error(e) => {
                    error = Some(e.clone());
                },
            }
            proof {
                if messages@[i as int] is Finished {
                    assert(next[i as int] is Finished);
                } else {
                    assert forall|k: int| 0 <= k < next.len() && #[trigger] next[k] is Finished implies prefix[k] is Finished by {
                        assert(k < i);
                    }
                    assert forall|k: int| 0 <= k < prefix.len() && #[trigger] prefix[k] is Finished implies next[k] is Finished by {
                    }
                }
            }
            i = i + 1;
        }
        assert(messages@.take(n as int) =~= messages@);
        proof {
            law_error_reported(messages@);
            law_finished_ends(messages@);
            law_status_text(old(self).export_message@, messages@);
        }
        let ended = finished || error.is_some();
        if ended {
            self.is_exporting = false;
        }
        match error {
            Some(e) => {
                let mut text = String::from_str("导出失败: ");
                text.append(e.as_str());
                self.error_message = Some(text);
            },
            None => {},
        }
        ended
    }
}

impl<T> Default for AppState<T> {
    fn default() -> (s: Self)
        ensures
            s.images@.len() == 0,
            s.selected_index is None,
            !s.is_exporting,
            s.export_message@.len() == 0,
            s.error_message is None,
            !s.show_overwrite_confirmation,
    {
        Self::new()
    }
}

/// A batch reports the end of the export exactly when one of its messages is
/// `Finished`; in particular a batch of that message alone does.
pub proof fn law_finished_ends(msgs: Seq<ExportMessage>)
    ensures
        has_finished(msgs) <==> exists|i: int| 0 <= i < msgs.len() && #[trigger] msgs[i] is Finished,
        has_finished(seq![ExportMessage::Finished]),
{
    assert(seq![ExportMessage::Finished][0] is Finished);
}

/// A batch carries an error exactly when one of its messages is `Error`,
/// and the error shown is the text of the last such message.
pub proof fn law_error_reported(msgs: Seq<ExportMessage>)
    ensures
        last_error(msgs) is Some <==> exists|i: int| 0 <= i < msgs.len() && #[trigger] msgs[i] is Error,
        last_error(msgs) matches Some(e) ==> exists|i: int|
            #![trigger msgs[i]]
            0 <= i < msgs.len() && (msgs[i] matches ExportMessage::Error(t) && t@ == e) && forall|j: int|
                i < j < msgs.len() ==> !(#[trigger] msgs[j] is Error),
    decreases msgs.len(),
{
    if msgs.len() > 0 {
        let init = msgs.drop_last();
        law_error_reported(init);
        let n = msgs.len() - 1;
        assert forall|i: int| 0 <= i < init.len() implies init[i] == msgs[i] by {}
        if msgs.last() is Error {
            assert(msgs[n] is Error);
        } else {
            if last_error(init) is Some {
                let i = choose|i: int|
                    #![trigger init[i]]
                    0 <= i < init.len() && (init[i] matches ExportMessage::Error(t)
                        && t@ == last_error(init)->0) && forall|j: int|
                        i < j < init.len() ==> !(#[trigger] init[j] is Error);
                assert(msgs[i] == init[i]);
                assert forall|j: int| i < j < msgs.len() implies !(#[trigger] msgs[j] is Error) by {
                    if j < n {
                        assert(init[j] == msgs[j]);
                    }
                }
            }
            assert forall|i: int| 0 <= i < msgs.len() && #[trigger] msgs[i] is Error implies init[i] is Error by {
                assert(i != n);
                assert(init[i] == msgs[i]);
            }
        }
    }
}

/// The status text after a batch is the text of its last progress or end
/// message: a progress report's own text, or "导出完成!" for the end. Error
/// messages leave the text alone, so a batch of errors only (or an empty
/// batch) keeps the text it started with.
pub proof fn law_status_text(text: Seq<char>, msgs: Seq<ExportMessage>)
    ensures
        (forall|i: int| 0 <= i < msgs.len() ==> #[trigger] msgs[i] is Error) ==> text_after(text, msgs)
            == text,
        forall|i: int|
            0 <= i < msgs.len() && !(#[trigger] msgs[i] is Error) && (forall|j: int|
                i < j < msgs.len() ==> msgs[j] is Error) ==> text_after(text, msgs) == (match msgs[i] {
                ExportMessage::Progress(_, _, t) => t@,
                _ => "导出完成!"@,
            }),
    decreases msgs.len(),
{
    if msgs.len() > 0 {
        let init = msgs.drop_last();
        let n = msgs.len() - 1;
        law_status_text(text, init);
        assert forall|i: int| 0 <= i < init.len() implies init[i] == msgs[i] by {}
        if (forall|i: int| 0 <= i < msgs.len() ==> #[trigger] msgs[i] is Error) {
            assert(msgs[n] is Error);
            assert forall|i: int| 0 <= i < init.len() implies #[trigger] init[i] is Error by {
                assert(msgs[i] is Error);
            }
        }
        assert forall|i: int|
            0 <= i < msgs.len() && !(#[trigger] msgs[i] is Error) && (forall|j: int|
                i < j < msgs.len() ==> msgs[j] is Error) implies text_after(text, msgs) == (match msgs[i] {
                ExportMessage::Progress(_, _, t) => t@,
                _ => "导出完成!"@,
            }) by {
            if i < n {
                assert(msgs[n] is Error);
                assert(init[i] == msgs[i]);
                assert forall|j: int| i < j < init.len() implies init[j] is Error by {
                    assert(init[j] == msgs[j]);
                }
            }
        }
    }
}

/// Two states with the same status agree on the export flag, the status
/// text, the pending error and the overwrite question.
pub proof fn law_same_status<T>(a: AppState<T>, b: AppState<T>)
    requires
        a.same_status(&b),
    ensures
        a.is_exporting == b.is_exporting,
        a.export_message@ == b.export_message@,
        a.error_message == b.error_message,
        a.show_overwrite_confirmation == b.show_overwrite_confirmation,
{
}

/// The selection is valid exactly when it points inside the list, and is
/// absent only for an empty list.
pub proof fn law_selection_valid<T>(s: AppState<T>)
    ensures
        s.selection_valid() <==> ((s.selected_index is None && s.images@.len() == 0) || (s.selected_index matches Some(i) && i < s.images@.len())),
{
}

} // verus!

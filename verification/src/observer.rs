//! The observer's state: what the presentation layer shows about the run.
//! It is owned by the observer loop and updated only by applying drained
//! progress messages, never mutated from the worker's side.

use vstd::prelude::*;

use crate::language::{dict_of, get_dict, LangDict, Language};
use crate::messages::UpdateMsg;

verus! {

/// Everything the presentation layer shows about one run.
pub struct UpdateApp {
    /// Path of the update package. Configuration.
    pub package_path: String,
    /// Target installation directory, if supplied. Configuration.
    pub target_path: Option<String>,
    /// Inner-path hint for the payload resolver. Configuration.
    pub zip_inner_path: String,
    /// The current stage's reported total.
    pub total_files: usize,
    /// The last reported progress counter.
    pub current_file: usize,
    /// The headline status line.
    pub status: String,
    /// The last raw status text received.
    pub status_text: String,
    /// The name in the last progress message; empty when none is shown.
    pub current_file_name: String,
    /// Whether the run completed successfully.
    pub is_complete: bool,
    /// The failure text, once the run failed.
    pub error: Option<String>,
    /// The active language dictionary.
    pub dict: LangDict,
    /// Whole seconds to wait before the run starts. Configuration.
    pub delay_seconds: u64,
}

impl UpdateApp {
    /// A fresh observer state: nothing received yet, the preparing status
    /// shown.
    pub fn new(
        package_path: String,
        lang: Language,
        target_path: Option<String>,
        zip_inner_path: String,
        delay_seconds: u64,
    ) -> (app: UpdateApp)
        ensures
            app.package_path == package_path,
            app.target_path == target_path,
            app.zip_inner_path == zip_inner_path,
            app.delay_seconds == delay_seconds,
            dict_of(lang, app.dict),
            app.total_files == 0,
            app.current_file == 0,
            app.status@ == app.dict.status_preparing@,
            app.status_text@ == app.dict.status_preparing@,
            app.current_file_name@ == Seq::<char>::empty(),
            !app.is_complete,
            app.error is None,
    {
        let dict = get_dict(lang);
        UpdateApp {
            package_path,
            target_path,
            zip_inner_path,
            total_files: 0,
            current_file: 0,
            status: String::from_str(dict.status_preparing),
            status_text: String::from_str(dict.status_preparing),
            current_file_name: String::new(),
            is_complete: false,
            error: None,
            dict,
            delay_seconds,
        }
    }

    /// Applies one drained progress message to the shown state:
    /// - `Status` replaces both status lines;
    /// - `TotalFiles` sets the total;
    /// - `Progress` sets the counter, the total and the shown file name;
    /// - `Complete` shows the completion status, snaps the counter to the
    ///   total, clears the file name and marks the run complete;
    /// - `Error` shows the failure status and records the failure text.
    ///
    /// Every field the message does not speak of stays as it was.
    pub fn apply_msg(&mut self, msg: UpdateMsg)
        ensures
            final(self).package_path == old(self).package_path,
            final(self).target_path == old(self).target_path,
            final(self).zip_inner_path == old(self).zip_inner_path,
            final(self).dict == old(self).dict,
            final(self).delay_seconds == old(self).delay_seconds,
            msg matches UpdateMsg::Status(text) ==> {
                &&& final(self).status@ == text@
                &&& final(self).status_text@ == text@
                &&& final(self).total_files == old(self).total_files
                &&& final(self).current_file == old(self).current_file
                &&& final(self).current_file_name == old(self).current_file_name
                &&& final(self).is_complete == old(self).is_complete
                &&& final(self).error == old(self).error
            },
            msg matches UpdateMsg::TotalFiles(total) ==> {
                &&& final(self).total_files == total
                &&& final(self).current_file == old(self).current_file
                &&& final(self).status == old(self).status
                &&& final(self).status_text == old(self).status_text
                &&& final(self).current_file_name == old(self).current_file_name
                &&& final(self).is_complete == old(self).is_complete
                &&& final(self).error == old(self).error
            },
            msg matches UpdateMsg::Progress(current, total, name) ==> {
                &&& final(self).current_file == current
                &&& final(self).total_files == total
                &&& final(self).current_file_name@ == name@
                &&& final(self).status == old(self).status
                &&& final(self).status_text == old(self).status_text
                &&& final(self).is_complete == old(self).is_complete
                &&& final(self).error == old(self).error
            },
            msg is Complete ==> {
                &&& final(self).status@ == old(self).dict.status_complete@
                &&& final(self).current_file == old(self).total_files
                &&& final(self).current_file_name@ == Seq::<char>::empty()
                &&& final(self).is_complete
                &&& final(self).total_files == old(self).total_files
                &&& final(self).status_text == old(self).status_text
                &&& final(self).error == old(self).error
            },
            msg matches UpdateMsg::Error(text) ==> {
                &&& final(self).status@ == old(self).dict.status_failed@
                &&& final(self).error matches Some(e) && e@ == text@
                &&& final(self).total_files == old(self).total_files
                &&& final(self).current_file == old(self).current_file
                &&& final(self).status_text == old(self).status_text
                &&& final(self).current_file_name == old(self).current_file_name
                &&& final(self).is_complete == old(self).is_complete
            },
    {
        match msg {
            UpdateMsg::Status(text) => {
                self.status_text = text.clone();
                self.status = text;
            },
            UpdateMsg::TotalFiles(total) => {
                self.total_files = total;
            },
            UpdateMsg::Progress(current, total, name) => {
                self.current_file = current;
                self.total_files = total;
                self.current_file_name = name;
            },
            UpdateMsg::Complete => {
                self.status = String::from_str(self.dict.status_complete);
                self.current_file = self.total_files;
                self.current_file_name = String::new();
                self.is_complete = true;
            },
            UpdateMsg::Error(text) => {
                self.status = String::from_str(self.dict.status_failed);
                self.error = Some(text);
            },
        }
    }
}

/// The observer loop's start-delay decision: how many whole seconds remain
/// before the worker may be spawned, or nothing once the delay has passed.
pub fn delay_remaining(delay_seconds: u64, elapsed_seconds: u64) -> (r: Option<u64>)
    ensures
        elapsed_seconds < delay_seconds ==> (r matches Some(rem) && rem == delay_seconds
            - elapsed_seconds),
        elapsed_seconds >= delay_seconds ==> r is None,
{
    if elapsed_seconds < delay_seconds {
        Some(delay_seconds - elapsed_seconds)
    } else {
        None
    }
}

} // verus!

use vstd::prelude::*;
use vstd::string::StringExecFns;

verus! {

/// Where the collections live on disk: one JSON file per collection under
/// `data_dir`. This type only derives the file paths; reading and writing
/// the files is the caller's business.
pub struct JsonStorage {
    pub data_dir: String,
}

impl JsonStorage {
    pub fn new(data_dir: &str) -> (s: Self)
        ensures
            s.data_dir@ == data_dir@,
    {
        JsonStorage { data_dir: String::from_str(data_dir) }
    }

    /// The file holding the task collection.
    pub fn tasks_path(&self) -> (p: String)
        ensures
            p@ == self.data_dir@ + "/tasks.json"@,
    {
        self.data_dir.clone().concat("/tasks.json")
    }

    /// The file holding the habit collection.
    pub fn habits_path(&self) -> (p: String)
        ensures
            p@ == self.data_dir@ + "/habits.json"@,
    {
        self.data_dir.clone().concat("/habits.json")
    }

    /// The file holding the current pomodoro session.
    pub fn current_session_path(&self) -> (p: String)
        ensures
            p@ == self.data_dir@ + "/current_session.json"@,
    {
        self.data_dir.clone().concat("/current_session.json")
    }
}

} // verus!

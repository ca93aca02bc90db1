//! The competition data model: judges, judging tables, the shared backend
//! record and its wire-shaped counterpart, and the error codes every
//! operation reports through.

use vstd::prelude::*;

verus! {

/// One judge assigned to a judging table.
#[derive(Debug, Clone)]
#[allow(non_snake_case)]
pub struct Kampfrichter {
    pub role: String,
    pub name: String,
    pub doubleFound: bool,
}

/// Mathematical model of a judge.
#[verifier::ext_equal]
pub struct JudgeView {
    pub role: Seq<char>,
    pub name: Seq<char>,
    pub double_found: bool,
}

impl View for Kampfrichter {
    type V = JudgeView;

    open spec fn view(&self) -> JudgeView {
        JudgeView { role: self.role@, name: self.name@, double_found: self.doubleFound }
    }
}

/// One judging table (panel) of the competition, with its judges keyed by
/// an opaque identifier chosen by the caller. Key uniqueness is owned by
/// the caller and is not enforced here.
#[derive(Debug, Clone)]
#[allow(non_snake_case)]
pub struct Kampfgericht {
    pub uniqueID: String,
    pub table_name: String,
    pub table_kind: String,
    pub table_is_finale: bool,
    pub judges: Vec<(String, Kampfrichter)>,
}

/// Mathematical model of a judging table.
#[verifier::ext_equal]
pub struct TableView {
    pub unique_id: Seq<char>,
    pub table_name: Seq<char>,
    pub table_kind: Seq<char>,
    pub table_is_finale: bool,
    pub judges: Seq<(Seq<char>, JudgeView)>,
}

impl View for Kampfgericht {
    type V = TableView;

    open spec fn view(&self) -> TableView {
        TableView {
            unique_id: self.uniqueID@,
            table_name: self.table_name@,
            table_kind: self.table_kind@,
            table_is_finale: self.table_is_finale,
            judges: self.judges@.map_values(|p: (String, Kampfrichter)| (p.0@, p.1@)),
        }
    }
}

/// A value guarded for exclusive access by one task at a time. Mirrors a
/// mutex that remembers whether a previous holder failed while holding it:
/// once poisoned, every further acquisition is refused.
#[derive(Debug)]
pub struct FieldGuard<T> {
    value: T,
    poisoned: bool,
}

impl<T> FieldGuard<T> {
    pub closed spec fn value(&self) -> T {
        self.value
    }

    pub closed spec fn is_poisoned(&self) -> bool {
        self.poisoned
    }

    /// A fresh, healthy guard around the given value.
    pub fn new(value: T) -> (r: FieldGuard<T>)
        ensures
            r.value() == value,
            !r.is_poisoned(),
    {
        FieldGuard { value, poisoned: false }
    }

    /// Acquire for reading; refused when the guard is poisoned.
    pub fn read(&self) -> (r: Result<&T, ApplicationError>)
        ensures
            self.is_poisoned() <==> r is Err,
            r is Err ==> r->Err_0 == ApplicationError::MutexPoisonedError,
            r is Ok ==> r->Ok_0 == &self.value(),
    {
        if self.poisoned {
            Err(ApplicationError::MutexPoisonedError)
        } else {
            Ok(&self.value)
        }
    }

    /// Acquire for writing and replace the value; refused when poisoned.
    pub fn write(&mut self, value: T) -> (r: Result<(), ApplicationError>)
        ensures
            old(self).is_poisoned() <==> r is Err,
            r is Err ==> r->Err_0 == ApplicationError::MutexPoisonedError,
            r is Err ==> *final(self) == *old(self),
            r is Ok ==> final(self).value() == value && !final(self).is_poisoned(),
    {
        if self.poisoned {
            Err(ApplicationError::MutexPoisonedError)
        } else {
            self.value = value;
            Ok(())
        }
    }

    /// Take the value out, consuming the guard.
    pub fn into_value(self) -> (r: T)
        ensures
            r == self.value(),
    {
        self.value
    }

    /// Mark the guard as left behind by a failed holder.
    pub fn poison(&mut self)
        ensures
            final(self).value() == old(self).value(),
            final(self).is_poisoned(),
    {
        self.poisoned = true;
    }
}

/// The authoritative in-process record of one competition. Each field is
/// independently lockable; no operation holds two field locks at once.
#[derive(Debug)]
pub struct Storage {
    pub wk_name: FieldGuard<String>,
    pub wk_date: FieldGuard<String>,
    pub wk_place: FieldGuard<String>,
    pub wk_responsible_person: FieldGuard<String>,
    pub wk_judgesmeeting_time: FieldGuard<String>,
    pub wk_replacement_judges: FieldGuard<Vec<String>>,
    pub wk_judgingtables: FieldGuard<Vec<(String, Kampfgericht)>>,
}

/// Mathematical model of the competition record (values only; lock health
/// is spoken of separately).
#[verifier::ext_equal]
pub struct StorageView {
    pub wk_name: Seq<char>,
    pub wk_date: Seq<char>,
    pub wk_place: Seq<char>,
    pub wk_responsible_person: Seq<char>,
    pub wk_judgesmeeting_time: Seq<char>,
    pub wk_replacement_judges: Seq<Seq<char>>,
    pub wk_judgingtables: Seq<(Seq<char>, TableView)>,
}

/// The model of a table mapping held as key/value pairs.
pub open spec fn tables_view(tables: Seq<(String, Kampfgericht)>) -> Seq<(Seq<char>, TableView)> {
    tables.map_values(|p: (String, Kampfgericht)| (p.0@, p.1@))
}

/// The model of a replacement-judge list.
pub open spec fn names_view(names: Seq<String>) -> Seq<Seq<char>> {
    names.map_values(|s: String| s@)
}

impl View for Storage {
    type V = StorageView;

    open spec fn view(&self) -> StorageView {
        StorageView {
            wk_name: self.wk_name.value()@,
            wk_date: self.wk_date.value()@,
            wk_place: self.wk_place.value()@,
            wk_responsible_person: self.wk_responsible_person.value()@,
            wk_judgesmeeting_time: self.wk_judgesmeeting_time.value()@,
            wk_replacement_judges: names_view(self.wk_replacement_judges.value()@),
            wk_judgingtables: tables_view(self.wk_judgingtables.value()@),
        }
    }
}

impl Storage {
    /// No field lock was left behind by a failed holder.
    pub open spec fn healthy(&self) -> bool {
        &&& !self.wk_name.is_poisoned()
        &&& !self.wk_date.is_poisoned()
        &&& !self.wk_place.is_poisoned()
        &&& !self.wk_responsible_person.is_poisoned()
        &&& !self.wk_judgesmeeting_time.is_poisoned()
        &&& !self.wk_replacement_judges.is_poisoned()
        &&& !self.wk_judgingtables.is_poisoned()
    }

    /// The empty record every competition starts from.
    pub fn empty() -> (r: Storage)
        ensures
            r.healthy(),
            r@.wk_name.len() == 0,
            r@.wk_date.len() == 0,
            r@.wk_place.len() == 0,
            r@.wk_responsible_person.len() == 0,
            r@.wk_judgesmeeting_time.len() == 0,
            r@.wk_replacement_judges.len() == 0,
            r@.wk_judgingtables.len() == 0,
    {
        Storage {
            wk_name: FieldGuard::new(String::new()),
            wk_date: FieldGuard::new(String::new()),
            wk_place: FieldGuard::new(String::new()),
            wk_responsible_person: FieldGuard::new(String::new()),
            wk_judgesmeeting_time: FieldGuard::new(String::new()),
            wk_replacement_judges: FieldGuard::new(Vec::new()),
            wk_judgingtables: FieldGuard::new(Vec::new()),
        }
    }
}

/// The wire-shaped record exchanged with the front end. The scalar fields
/// are always present; the two collections are optional on the way in and
/// always present on the way out.
#[derive(Debug, Clone)]
#[allow(non_snake_case)]
pub struct FrontendStorage {
    pub wk_name: String,
    pub wk_date: String,
    pub wk_place: String,
    pub wk_responsible_person: String,
    pub wk_judgesmeeting_time: String,
    pub wk_replacement_judges: Option<Vec<String>>,
    pub wk_judgingtables: Option<Vec<(String, Kampfgericht)>>,
}

/// Mathematical model of the wire-shaped record.
#[verifier::ext_equal]
pub struct FrontendView {
    pub wk_name: Seq<char>,
    pub wk_date: Seq<char>,
    pub wk_place: Seq<char>,
    pub wk_responsible_person: Seq<char>,
    pub wk_judgesmeeting_time: Seq<char>,
    pub wk_replacement_judges: Option<Seq<Seq<char>>>,
    pub wk_judgingtables: Option<Seq<(Seq<char>, TableView)>>,
}

impl View for FrontendStorage {
    type V = FrontendView;

    open spec fn view(&self) -> FrontendView {
        FrontendView {
            wk_name: self.wk_name@,
            wk_date: self.wk_date@,
            wk_place: self.wk_place@,
            wk_responsible_person: self.wk_responsible_person@,
            wk_judgesmeeting_time: self.wk_judgesmeeting_time@,
            wk_replacement_judges: match self.wk_replacement_judges {
                Some(ref v) => Some(names_view(v@)),
                None => None,
            },
            wk_judgingtables: match self.wk_judgingtables {
                Some(ref v) => Some(tables_view(v@)),
                None => None,
            },
        }
    }
}

/// The fixed set of error codes an operation can surface to the UI layer.
#[derive(Debug, Clone, Copy, PartialEq, Eq, Structural)]
pub enum ApplicationError {
    UnknownError,
    NoError,
    MutexPoisonedError,
    JSONSerializeError,
    CStringNullError,
    MarshalJSONNullError,
    DeserializeArgumentNullError,
    DeserializeJSONError,
    DeserializeNotSupportedError,
    TauriWindowCreationError,
    TauriWindowShowError,
    RustWriteFileError,
    MarshalSavePathNullError,
    StorageNullError,
    CSharpWriteError,
    JSONDeserializeImporterError,
    FailedToCreateStdOutFileError,
    FailedToCreateStdErrFileError,
    LibcDup2StdOutError,
    LibcDup2StdErrError,
    CSharpPDFSavePathIsEmpty,
    ChromeDownloadError,
    ChromiumBinaryIsUnexpectedlyNone,
    BrowserCouldNotBeBuild,
    NewTabCouldNotBeCreated,
    NavigationToGeneratedHTMLFileFailed,
    WaitingForNavigationFailed,
    PDFGenerationInChromiumFailed,
    WritingPDFDataToDiskFailed,
    RemovalOfTemporaryGeneratedFilesFailed,
    SMTPConnectionError,
    MessageSendError,
    TauriExistingWindowNotFoundError,
    WaitingForWindowsPDFResult,
}

/// What the front end is told when an update was found.
#[derive(Debug, Clone)]
pub struct UpdateAvailablePayload {
    pub body: String,
    pub date: String,
    pub version: String,
}

/// What the front end is told after every downloaded chunk.
#[derive(Debug, Clone)]
pub struct UpdateProgressPayload {
    pub chunk_len: usize,
    pub content_len: Option<u64>,
}

} // verus!

//! The decisions taken while a plugin module is loaded.
//!
//! Loading alternates calls into the plugin (through its COM interfaces) with
//! decisions on what those calls returned. The calls are made by the program
//! around this library; [`PluginLoader`] takes each outcome as a plain value
//! and answers with the next call to make, or with the end of the load.
use vstd::prelude::*;
use crate::plugin::{
    category_of_name, ClassCategory, ClassMetadata, PluginClassError, PluginError, PluginMetadata,
};
use crate::result_code::TResult;
use crate::text::{
    c_buffer_text, c_str_bytes, c_text, lemma_c_str_of_terminated, lemma_c_text_encodes_c_str,
    utf8_error_of, Utf8Error,
};
use vstd::utf8::{encode_utf8, valid_utf8};

verus! {

/// Where the load of a plugin module stands.
#[derive(Debug, Clone, Copy, PartialEq, Eq, Structural)]
pub enum LoadPhase {
    /// The module's entry function has not been called yet.
    AwaitingEntry,
    /// The factory's information (vendor text and number of classes) is awaited.
    AwaitingFactoryInfo,
    /// The information of the next class is awaited.
    AwaitingClassInfo,
    /// The component instance of the current class is awaited.
    AwaitingComponent,
    /// The edit controller instance of the current class is awaited.
    AwaitingEditController,
    /// Every class was loaded.
    Loaded,
    /// The load failed with an error.
    Failed,
    /// The load met a state in which it cannot go on and the host stops.
    Aborted,
}

/// Errors with which a load fails.
#[derive(Debug, Clone, PartialEq)]
pub enum LoadError {
    Plugin(PluginError),
    PluginClass(PluginClassError),
    /// A text that the plugin reports (vendor data or a class name) is not
    /// UTF-8; where decoding it stopped.
    InvalidText(Utf8Error),
}

/// States in which the host cannot go on with a load.
#[derive(Debug, Clone, Copy, PartialEq, Eq, Structural)]
pub enum AbortReason {
    /// The factory reported a component instance but handed back no pointer.
    NullComponent,
    /// The factory did not create the edit controller; the code it returned.
    EditControllerRejected(i32),
    /// The factory reported an edit controller but handed back no pointer.
    NullEditController,
}

/// What the host does next.
#[derive(Debug, Clone, PartialEq)]
pub enum LoadAction {
    /// Call the module's entry function.
    CallEntry,
    /// Get the plugin factory, its number of classes and its information.
    ReadFactoryInfo,
    /// Read the information of the class at this index.
    ReadClassInfo(i32),
    /// Ask the factory for a component instance of the class at this index.
    CreateComponent(i32),
    /// Set the component's I/O mode, initialize it, and ask the factory for an
    /// edit controller instance of the class at this index.
    SetUpComponent(i32),
    /// Initialize the edit controller of the class at `index`, create its
    /// editor view and keep the class; then read the class at `next`, or
    /// finish where there is none.
    CompleteClass { index: i32, next: Option<i32> },
    /// The plugin has no classes: the load is complete.
    Finish,
    /// The load failed with this error.
    Fail(LoadError),
    /// Stop the host.
    Abort(AbortReason),
    /// The outcome does not belong to the current phase; nothing changed.
    Ignore,
}

/// The state of the load of a plugin module.
pub struct PluginLoader {
    phase: LoadPhase,
    class_count: i32,
    metadata: Option<PluginMetadata>,
    classes: Vec<ClassMetadata>,
    pending: Option<ClassMetadata>,
    error: Option<LoadError>,
}

/// Whether a phase ends the load.
pub open spec fn is_terminal(phase: LoadPhase) -> bool {
    phase == LoadPhase::Loaded || phase == LoadPhase::Failed || phase == LoadPhase::Aborted
}

/// The number of classes that a factory reporting `count` classes has: none
/// for a count below zero.
pub open spec fn classes_expected(count: int) -> int {
    if count < 0 {
        0
    } else {
        count
    }
}

/// Metadata whose fields hold the texts of three C strings.
pub open spec fn metadata_from_texts(
    m: PluginMetadata,
    url: Seq<u8>,
    email: Seq<u8>,
    vendor: Seq<u8>,
) -> bool {
    &&& m.url@ == c_text(url).unwrap()
    &&& m.email@ == c_text(email).unwrap()
    &&& m.vendor@ == c_text(vendor).unwrap()
}

/// A complete load holds one class for each class that the factory reported
/// (none where it reported a count below one).
pub proof fn lemma_loaded_holds_every_class(l: PluginLoader)
    requires
        l.wf(),
        l.spec_phase() == LoadPhase::Loaded,
    ensures
        l.spec_classes().len() == classes_expected(l.spec_class_count()),
        l.spec_metadata() is Some,
{
}

/// While a class is being loaded, its index (the number of classes kept so
/// far) lies below the number of classes that the factory reported.
pub proof fn lemma_current_class_in_range(l: PluginLoader)
    requires
        l.wf(),
        l.spec_phase() == LoadPhase::AwaitingClassInfo || l.spec_phase()
            == LoadPhase::AwaitingComponent || l.spec_phase() == LoadPhase::AwaitingEditController,
    ensures
        0 <= l.spec_classes().len() < l.spec_class_count(),
{
}

/// Metadata read from three C strings holds each text whole: the UTF-8
/// encoding of its url, email and vendor is exactly the bytes before the NUL
/// of the matching buffer.
pub proof fn lemma_metadata_keeps_whole_texts(
    m: PluginMetadata,
    url: Seq<u8>,
    email: Seq<u8>,
    vendor: Seq<u8>,
)
    requires
        c_text(url) is Some,
        c_text(email) is Some,
        c_text(vendor) is Some,
        metadata_from_texts(m, url, email, vendor),
    ensures
        encode_utf8(m.url@) == c_str_bytes(url),
        encode_utf8(m.email@) == c_str_bytes(email),
        encode_utf8(m.vendor@) == c_str_bytes(vendor),
{
    lemma_c_text_encodes_c_str(url);
    lemma_c_text_encodes_c_str(email);
    lemma_c_text_encodes_c_str(vendor);
}

/// For a url buffer that holds the UTF-8 bytes `s` (no NUL among them), then
/// a NUL and anything after, metadata read from it holds as url exactly the
/// text that `s` encodes, however long.
pub proof fn lemma_metadata_url_of_terminated(
    m: PluginMetadata,
    s: Seq<u8>,
    rest: Seq<u8>,
    email: Seq<u8>,
    vendor: Seq<u8>,
)
    requires
        forall|i: int| 0 <= i < s.len() ==> s[i] != 0,
        valid_utf8(s),
        c_text(email) is Some,
        c_text(vendor) is Some,
        metadata_from_texts(m, s + seq![0u8] + rest, email, vendor),
    ensures
        encode_utf8(m.url@) == s,
{
    lemma_c_str_of_terminated(s, rest);
    lemma_c_text_encodes_c_str(s + seq![0u8] + rest);
}

/// The load failed on the C string in `buf`, which is not UTF-8: the error is
/// the one that decoding it reports, and nothing else changed.
pub open spec fn failed_on_text(
    after: PluginLoader,
    before: PluginLoader,
    buf: Seq<u8>,
    action: LoadAction,
) -> bool {
    &&& after.spec_phase() == LoadPhase::Failed
    &&& after.spec_error() matches Some(LoadError::InvalidText(e)) && utf8_error_of(
        c_str_bytes(buf),
        e,
    )
    &&& after.same_data(&before)
    &&& action == LoadAction::Fail(after.spec_error().unwrap())
}

impl PluginLoader {
    /// The phase of the load.
    pub closed spec fn spec_phase(&self) -> LoadPhase {
        self.phase
    }

    /// The number of classes that the factory reported (0 before it did).
    pub closed spec fn spec_class_count(&self) -> int {
        self.class_count as int
    }

    /// The factory's information, once read.
    pub closed spec fn spec_metadata(&self) -> Option<PluginMetadata> {
        self.metadata
    }

    /// The classes loaded so far, in the factory's order.
    pub closed spec fn spec_classes(&self) -> Seq<ClassMetadata> {
        self.classes@
    }

    /// The class being loaded.
    pub closed spec fn spec_pending(&self) -> Option<ClassMetadata> {
        self.pending
    }

    /// The error with which the load failed.
    pub closed spec fn spec_error(&self) -> Option<LoadError> {
        self.error
    }

    /// What holds of the state in each phase.
    pub open spec fn wf(&self) -> bool {
        match self.spec_phase() {
            LoadPhase::AwaitingEntry | LoadPhase::AwaitingFactoryInfo => {
                &&& self.spec_class_count() == 0
                &&& self.spec_metadata() is None
                &&& self.spec_classes().len() == 0
                &&& self.spec_pending() is None
                &&& self.spec_error() is None
            },
            LoadPhase::AwaitingClassInfo => {
                &&& self.spec_metadata() is Some
                &&& self.spec_classes().len() < self.spec_class_count()
                &&& self.spec_pending() is None
                &&& self.spec_error() is None
            },
            LoadPhase::AwaitingComponent | LoadPhase::AwaitingEditController => {
                &&& self.spec_metadata() is Some
                &&& self.spec_classes().len() < self.spec_class_count()
                &&& self.spec_pending() is Some
                &&& self.spec_error() is None
            },
            LoadPhase::Loaded => {
                &&& self.spec_metadata() is Some
                &&& self.spec_classes().len() == classes_expected(self.spec_class_count())
                &&& self.spec_pending() is None
                &&& self.spec_error() is None
            },
            LoadPhase::Failed => self.spec_error() is Some,
            LoadPhase::Aborted => self.spec_error() is None,
        }
    }

    /// Everything but the phase (and the error) is as in `other`.
    pub open spec fn same_data(&self, other: &PluginLoader) -> bool {
        &&& self.spec_class_count() == other.spec_class_count()
        &&& self.spec_metadata() == other.spec_metadata()
        &&& self.spec_classes() == other.spec_classes()
        &&& self.spec_pending() == other.spec_pending()
    }

    /// A load that has not begun; its first step is to call the module's entry
    /// function.
    pub fn new() -> (r: (PluginLoader, LoadAction))
        ensures
            r.0.wf(),
            r.0.spec_phase() == LoadPhase::AwaitingEntry,
            r.1 == LoadAction::CallEntry,
    {
        let loader = PluginLoader {
            phase: LoadPhase::AwaitingEntry,
            class_count: 0,
            metadata: None,
            classes: Vec::new(),
            pending: None,
            error: None,
        };
        (loader, LoadAction::CallEntry)
    }

    /// The phase of the load.
    pub fn phase(&self) -> (r: LoadPhase)
        ensures
            r == self.spec_phase(),
    {
        self.phase
    }

    /// The number of classes that the factory reported.
    pub fn class_count(&self) -> (r: i32)
        ensures
            r == self.spec_class_count(),
    {
        self.class_count
    }

    /// The factory's information, once read.
    pub fn metadata(&self) -> (r: Option<&PluginMetadata>)
        ensures
            r is Some <==> self.spec_metadata() is Some,
            r matches Some(m) ==> *m == self.spec_metadata().unwrap(),
    {
        self.metadata.as_ref()
    }

    /// The classes loaded so far, in the factory's order.
    pub fn classes(&self) -> (r: &Vec<ClassMetadata>)
        ensures
            r@ == self.spec_classes(),
    {
        &self.classes
    }

    /// The error with which the load failed.
    pub fn error(&self) -> (r: Option<&LoadError>)
        ensures
            r is Some <==> self.spec_error() is Some,
            r matches Some(e) ==> *e == self.spec_error().unwrap(),
    {
        self.error.as_ref()
    }

    /// Fails the load with `e`.
    fn fail(&mut self, e: LoadError) -> (action: LoadAction)
        ensures
            final(self).spec_phase() == LoadPhase::Failed,
            final(self).spec_error() == Some(e),
            final(self).same_data(old(self)),
            action == LoadAction::Fail(e),
    {
        self.phase = LoadPhase::Failed;
        self.error = Some(e.clone_error());
        LoadAction::Fail(e)
    }

    /// The module's entry function returned `ok`: without it the load fails
    /// with `EntryFailed`, with it the factory's information is read next.
    pub fn entry_returned(&mut self, ok: bool) -> (action: LoadAction)
        requires
            old(self).wf(),
        ensures
            final(self).wf(),
            old(self).spec_phase() != LoadPhase::AwaitingEntry ==> *final(self) == *old(self)
                && action == LoadAction::Ignore,
            old(self).spec_phase() == LoadPhase::AwaitingEntry ==> final(self).same_data(old(self)),
            old(self).spec_phase() == LoadPhase::AwaitingEntry && !ok ==> {
                &&& final(self).spec_phase() == LoadPhase::Failed
                &&& final(self).spec_error() == Some(LoadError::Plugin(PluginError::EntryFailed))
                &&& action == LoadAction::Fail(LoadError::Plugin(PluginError::EntryFailed))
            },
            old(self).spec_phase() == LoadPhase::AwaitingEntry && ok ==> {
                &&& final(self).spec_phase() == LoadPhase::AwaitingFactoryInfo
                &&& action == LoadAction::ReadFactoryInfo
            },
    {
        if self.phase != LoadPhase::AwaitingEntry {
            return LoadAction::Ignore;
        }
        if !ok {
            return self.fail(LoadError::Plugin(PluginError::EntryFailed));
        }
        self.phase = LoadPhase::AwaitingFactoryInfo;
        LoadAction::ReadFactoryInfo
    }

    /// The factory reported `class_count` classes and its information, whose
    /// `url`, `email` and `vendor` fields are C strings in fixed buffers. Each
    /// must be UTF-8 (in that order), else the load fails with
    /// `InvalidText` and the decoding error of the first that is not. With
    /// all three read, the classes are loaded one by one
    /// from index 0; a factory with no classes (a count of 0 or less) ends the
    /// load here.
    pub fn factory_info_read(
        &mut self,
        class_count: i32,
        url: &[u8],
        email: &[u8],
        vendor: &[u8],
    ) -> (action: LoadAction)
        requires
            old(self).wf(),
        ensures
            final(self).wf(),
            old(self).spec_phase() != LoadPhase::AwaitingFactoryInfo ==> *final(self) == *old(self)
                && action == LoadAction::Ignore,
            old(self).spec_phase() == LoadPhase::AwaitingFactoryInfo ==> {
                if c_text(url@) is None {
                    failed_on_text(*final(self), *old(self), url@, action)
                } else if c_text(email@) is None {
                    failed_on_text(*final(self), *old(self), email@, action)
                } else if c_text(vendor@) is None {
                    failed_on_text(*final(self), *old(self), vendor@, action)
                } else {
                    &&& final(self).spec_class_count() == class_count
                    &&& final(self).spec_metadata() matches Some(m) && metadata_from_texts(
                        m,
                        url@,
                        email@,
                        vendor@,
                    )
                    &&& final(self).spec_classes().len() == 0
                    &&& final(self).spec_pending() is None
                    &&& if class_count <= 0 {
                        final(self).spec_phase() == LoadPhase::Loaded && action
                            == LoadAction::Finish
                    } else {
                        final(self).spec_phase() == LoadPhase::AwaitingClassInfo && action
                            == LoadAction::ReadClassInfo(0)
                    }
                }
            },
    {
        if self.phase != LoadPhase::AwaitingFactoryInfo {
            return LoadAction::Ignore;
        }
        let url_text = match c_buffer_text(url) {
            Ok(t) => t,
            Err(e) => {
                return self.fail(LoadError::InvalidText(e));
            },
        };
        let email_text = match c_buffer_text(email) {
            Ok(t) => t,
            Err(e) => {
                return self.fail(LoadError::InvalidText(e));
            },
        };
        let vendor_text = match c_buffer_text(vendor) {
            Ok(t) => t,
            Err(e) => {
                return self.fail(LoadError::InvalidText(e));
            },
        };
        self.metadata = Some(PluginMetadata { url: url_text, email: email_text, vendor: vendor_text });
        self.class_count = class_count;
        if class_count <= 0 {
            self.phase = LoadPhase::Loaded;
            LoadAction::Finish
        } else {
            self.phase = LoadPhase::AwaitingClassInfo;
            LoadAction::ReadClassInfo(0)
        }
    }

    /// The factory reported the information of the class being read: its
    /// category and name, C strings in fixed buffers. The name must be UTF-8,
    /// else the load fails with `InvalidText` and its decoding error;
    /// then a component instance of
    /// the class is asked for.
    pub fn class_info_read(&mut self, category: &[u8], name: &[u8]) -> (action: LoadAction)
        requires
            old(self).wf(),
        ensures
            final(self).wf(),
            old(self).spec_phase() != LoadPhase::AwaitingClassInfo ==> *final(self) == *old(self)
                && action == LoadAction::Ignore,
            old(self).spec_phase() == LoadPhase::AwaitingClassInfo ==> {
                if c_text(name@) is None {
                    failed_on_text(*final(self), *old(self), name@, action)
                } else {
                    &&& final(self).spec_phase() == LoadPhase::AwaitingComponent
                    &&& final(self).spec_class_count() == old(self).spec_class_count()
                    &&& final(self).spec_metadata() == old(self).spec_metadata()
                    &&& final(self).spec_classes() == old(self).spec_classes()
                    &&& final(self).spec_pending() matches Some(c) && c.name@ == c_text(
                        name@,
                    ).unwrap() && c.category == category_of_name(c_str_bytes(category@))
                    &&& action == LoadAction::CreateComponent(old(self).spec_classes().len() as i32)
                }
            },
    {
        if self.phase != LoadPhase::AwaitingClassInfo {
            return LoadAction::Ignore;
        }
        let category = ClassCategory::from_c_chars(category);
        let name = match c_buffer_text(name) {
            Ok(t) => t,
            Err(e) => {
                return self.fail(LoadError::InvalidText(e));
            },
        };
        self.pending = Some(ClassMetadata { name, category });
        self.phase = LoadPhase::AwaitingComponent;
        LoadAction::CreateComponent(self.classes.len() as i32)
    }

    /// The factory answered the request for a component instance of the class
    /// being loaded with `result`, and handed back a null pointer or not.
    /// The class is refused with `ClassInstantiationFailed` (its name and the
    /// code) where the code's bitwise complement is 0, i.e. for the code -1
    /// (`kNoInterface`); otherwise a null pointer stops the host; otherwise
    /// the component is set up and the edit controller asked for.
    pub fn component_created(&mut self, result: i32, is_null: bool) -> (action: LoadAction)
        requires
            old(self).wf(),
        ensures
            final(self).wf(),
            old(self).spec_phase() != LoadPhase::AwaitingComponent ==> *final(self) == *old(self)
                && action == LoadAction::Ignore,
            old(self).spec_phase() == LoadPhase::AwaitingComponent ==> {
                &&& final(self).same_data(old(self))
                &&& if result == -1 {
                    &&& final(self).spec_phase() == LoadPhase::Failed
                    &&& final(self).spec_error() matches Some(
                        LoadError::PluginClass(PluginClassError::ClassInstantiationFailed(n, c)),
                    )
                    &&& n@ == old(self).spec_pending().unwrap().name@
                    &&& c == result
                    &&& action == LoadAction::Fail(final(self).spec_error().unwrap())
                } else if is_null {
                    &&& final(self).spec_phase() == LoadPhase::Aborted
                    &&& action == LoadAction::Abort(AbortReason::NullComponent)
                } else {
                    &&& final(self).spec_phase() == LoadPhase::AwaitingEditController
                    &&& action == LoadAction::SetUpComponent(old(self).spec_classes().len() as i32)
                }
            },
    {
        if self.phase != LoadPhase::AwaitingComponent {
            return LoadAction::Ignore;
        }
        let refused = !result == TResult::KResultOk.to_i32();
        assert(refused == (result == -1)) by (bit_vector)
            requires
                refused == (!result == 0i32),
        ;
        if refused {
            let name = match &self.pending {
                Some(c) => c.name.clone(),
                None => String::new(),
            };
            return self.fail(
                LoadError::PluginClass(PluginClassError::ClassInstantiationFailed(name, result)),
            );
        }
        if is_null {
            self.phase = LoadPhase::Aborted;
            return LoadAction::Abort(AbortReason::NullComponent);
        }
        self.phase = LoadPhase::AwaitingEditController;
        LoadAction::SetUpComponent(self.classes.len() as i32)
    }

    /// The factory answered the request for an edit controller of the class
    /// being loaded with `result`, and handed back a null pointer or not. A
    /// code other than `kResultTrue` (0) stops the host, and so does a null
    /// pointer; otherwise the class is kept and the next one is read, or the
    /// load is complete after the last.
    pub fn edit_controller_created(&mut self, result: i32, is_null: bool) -> (action: LoadAction)
        requires
            old(self).wf(),
        ensures
            final(self).wf(),
            old(self).spec_phase() != LoadPhase::AwaitingEditController ==> *final(self)
                == *old(self) && action == LoadAction::Ignore,
            old(self).spec_phase() == LoadPhase::AwaitingEditController ==> {
                let index = old(self).spec_classes().len();
                if result != 0 {
                    &&& final(self).spec_phase() == LoadPhase::Aborted
                    &&& final(self).same_data(old(self))
                    &&& action == LoadAction::Abort(AbortReason::EditControllerRejected(result))
                } else if is_null {
                    &&& final(self).spec_phase() == LoadPhase::Aborted
                    &&& final(self).same_data(old(self))
                    &&& action == LoadAction::Abort(AbortReason::NullEditController)
                } else {
                    &&& final(self).spec_class_count() == old(self).spec_class_count()
                    &&& final(self).spec_metadata() == old(self).spec_metadata()
                    &&& final(self).spec_classes() == old(self).spec_classes().push(
                        old(self).spec_pending().unwrap(),
                    )
                    &&& final(self).spec_pending() is None
                    &&& if index + 1 == old(self).spec_class_count() {
                        &&& final(self).spec_phase() == LoadPhase::Loaded
                        &&& action == LoadAction::CompleteClass { index: index as i32, next: None }
                    } else {
                        &&& final(self).spec_phase() == LoadPhase::AwaitingClassInfo
                        &&& action == LoadAction::CompleteClass {
                            index: index as i32,
                            next: Some((index + 1) as i32),
                        }
                    }
                }
            },
    {
        if self.phase != LoadPhase::AwaitingEditController {
            return LoadAction::Ignore;
        }
        if result != TResult::KResultOk.to_i32() {
            self.phase = LoadPhase::Aborted;
            return LoadAction::Abort(AbortReason::EditControllerRejected(result));
        }
        if is_null {
            self.phase = LoadPhase::Aborted;
            return LoadAction::Abort(AbortReason::NullEditController);
        }
        let index = self.classes.len() as i32;
        let class = self.pending.take();
        match class {
            Some(c) => self.classes.push(c),
            None => {},
        }
        if index + 1 == self.class_count {
            self.phase = LoadPhase::Loaded;
            LoadAction::CompleteClass { index, next: None }
        } else {
            self.phase = LoadPhase::AwaitingClassInfo;
            LoadAction::CompleteClass { index, next: Some(index + 1) }
        }
    }

    /// The factory's information and the loaded classes, where every class was
    /// loaded; `None` in any other phase.
    pub fn into_parts(self) -> (r: Option<(PluginMetadata, Vec<ClassMetadata>)>)
        requires
            self.wf(),
        ensures
            self.spec_phase() == LoadPhase::Loaded <==> r is Some,
            r matches Some((m, cs)) ==> {
                &&& Some(m) == self.spec_metadata()
                &&& cs@ == self.spec_classes()
                &&& cs@.len() == classes_expected(self.spec_class_count())
            },
    {
        if self.phase != LoadPhase::Loaded {
            return None;
        }
        match self.metadata {
            Some(m) => Some((m, self.classes)),
            None => None,
        }
    }
}

impl LoadError {
    /// A copy of the error.
    pub fn clone_error(&self) -> (r: LoadError)
        ensures
            r == *self,
    {
        match self {
            LoadError::Plugin(PluginError::EntryFailed) => LoadError::Plugin(PluginError::EntryFailed),
            LoadError::Plugin(PluginError::PluginClassError(s)) => LoadError::Plugin(
                PluginError::PluginClassError(s.clone()),
            ),
            LoadError::PluginClass(PluginClassError::ClassInstantiationFailed(n, c)) => {
                LoadError::PluginClass(PluginClassError::ClassInstantiationFailed(n.clone(), *c))
            },
            LoadError::InvalidText(e) => LoadError::InvalidText(*e),
        }
    }
}

} // verus!

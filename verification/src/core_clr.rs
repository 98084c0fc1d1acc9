//! The lifecycle of a bound engine: what is handed to each of its three entry
//! points, and what their answers do to the handle.
use vstd::prelude::*;
use vstd::string::*;
use vstd::utf8::encode_utf8;
use crate::error::CoreClrError;
use crate::assemblies::{
    all_resolved, answers_for, lemma_failure_carries, reports_first_failure, resolved_texts,
    Resolution,
};
use crate::properties::{arrays_result, property_keys, property_values, Properties};
use crate::text::{is_first_nul, lemma_nul_free_text, nul_position, texts};

verus! {

/// Symbol of the entry point that starts the engine.
pub const CLR_INITIALIZE: &'static str = "coreclr_initialize";

/// Symbol of the entry point that stops the engine.
pub const CLR_SHUTDOWN: &'static str = "coreclr_shutdown";

/// Symbol of the entry point that hands out delegates.
pub const CLR_CREATE_DELEGATE: &'static str = "coreclr_create_delegate";

/// The handle of one engine: the host handle and domain that the engine gave
/// when it was started, and whether it was started at all.
#[derive(Debug)]
pub struct CoreClr {
    host_handle: usize,
    domain_id: u32,
    initialized: bool,
}

/// What is handed to the engine to start it. `keys` and `values` are parallel.
#[derive(Debug)]
pub struct InitializeCall {
    pub exe_path: String,
    pub friendly_name: String,
    pub keys: Vec<String>,
    pub values: Vec<String>,
}

/// What is handed to the engine to get a delegate.
#[derive(Debug)]
pub struct DelegateCall {
    pub host_handle: usize,
    pub domain_id: u32,
    pub assembly_name: String,
    pub qualified_class: String,
    pub method_name: String,
}

/// What is handed to the engine to stop it.
#[derive(Clone, Copy, Debug, PartialEq, Eq, Structural)]
pub struct ShutdownCall {
    pub host_handle: usize,
    pub domain_id: u32,
}

/// The name by which the engine knows an assembly: its name, then
/// `, Version=` and its version.
pub open spec fn assembly_name_of(lib_name: Seq<char>, version: Seq<char>) -> Seq<char> {
    lib_name + ", Version="@ + version
}

/// The name by which the engine knows a type: its namespace, a dot and the
/// class.
pub open spec fn qualified_class_of(namespace: Seq<char>, class: Seq<char>) -> Seq<char> {
    namespace + "."@ + class
}

/// The text can be handed to the engine: it holds no NUL character.
pub open spec fn is_native(text: Seq<char>) -> bool {
    !text.contains('\0')
}

/// The outcome reports the first NUL byte of `text`.
pub open spec fn reports_nul<T>(text: Seq<char>, outcome: Result<T, CoreClrError>) -> bool {
    outcome matches Err(CoreClrError::FfiError(position)) && is_first_nul(
        encode_utf8(text),
        position as int,
    )
}

/// What converting a text for the engine gives: the text itself, or the
/// offset of its first NUL byte.
pub open spec fn native_result(text: Seq<char>, outcome: Result<String, CoreClrError>) -> bool {
    if is_native(text) {
        outcome is Ok && outcome->Ok_0@ == text
    } else {
        reports_nul(text, outcome)
    }
}

/// Copies a text for the engine, or reports the first NUL byte in it.
pub fn native_string(text: &str) -> (outcome: Result<String, CoreClrError>)
    ensures
        native_result(text@, outcome),
{
    proof {
        lemma_nul_free_text(text@);
    }
    match nul_position(text) {
        Some(position) => Err(CoreClrError::FfiError(position)),
        None => Ok(String::from_str(text)),
    }
}

/// Every one of the texts can be handed to the engine.
pub open spec fn all_native(parts: Seq<Seq<char>>) -> bool {
    forall|i: int| 0 <= i < parts.len() ==> is_native(#[trigger] parts[i])
}

/// The outcome reports the first NUL byte of the first of `parts` that holds
/// one.
pub open spec fn reports_first_faulty<T>(
    parts: Seq<Seq<char>>,
    outcome: Result<T, CoreClrError>,
) -> bool {
    exists|i: int|
        0 <= i < parts.len() && !is_native(#[trigger] parts[i]) && all_native(parts.take(i))
            && reports_nul(parts[i], outcome)
}

/// Looks through texts that are meant for the engine and reports the first
/// NUL byte among them.
pub fn check_native(parts: &Vec<String>) -> (outcome: Result<(), CoreClrError>)
    ensures
        all_native(texts(parts@)) ==> outcome is Ok,
        !all_native(texts(parts@)) ==> reports_first_faulty(texts(parts@), outcome),
{
    let mut i: usize = 0;
    while i < parts.len()
        invariant
            i <= parts.len(),
            all_native(texts(parts@).take(i as int)),
        decreases parts.len() - i,
    {
        proof {
            lemma_nul_free_text(parts@[i as int]@);
        }
        match nul_position(parts[i].as_str()) {
            Some(position) => {
                let outcome = Err(CoreClrError::FfiError(position));
                proof {
                    assert(!is_native(texts(parts@)[i as int]));
                    assert(reports_nul::<()>(texts(parts@)[i as int], outcome));
                }
                return outcome;
            },
            None => {
                proof {
                    assert(is_native(texts(parts@)[i as int]));
                    assert forall|j: int| 0 <= j < i + 1 implies is_native(
                        #[trigger] texts(parts@).take(i + 1)[j],
                    ) by {
                        if j < i {
                            assert(texts(parts@).take(i + 1)[j] == texts(parts@).take(i as int)[j]);
                        }
                    }
                }
            },
        }
        i = i + 1;
    }
    proof {
        assert(texts(parts@).take(parts.len() as int) =~= texts(parts@));
    }
    Ok(())
}

/// What putting a start together gives: the call itself where every text is
/// fit for the engine, and else the first NUL byte, looked for in the path,
/// the domain's name, the keys and the values, in this order.
pub open spec fn start_result(
    app_path: Seq<char>,
    domain_name: Seq<char>,
    keys: Seq<Seq<char>>,
    values: Seq<Seq<char>>,
    outcome: Result<InitializeCall, CoreClrError>,
) -> bool {
    if !is_native(app_path) {
        reports_nul(app_path, outcome)
    } else if !is_native(domain_name) {
        reports_nul(domain_name, outcome)
    } else if !all_native(keys) {
        reports_first_faulty(keys, outcome)
    } else if !all_native(values) {
        reports_first_faulty(values, outcome)
    } else {
        outcome matches Ok(call) && call.exe_path@ == app_path && call.friendly_name@
            == domain_name && texts(call.keys@) == keys && texts(call.values@) == values
    }
}

/// What putting a start together gives for names that are fit for the engine,
/// from what resolving each trusted file gave: where every file resolved,
/// what the arrays for their canonical paths give, and else the first failure.
pub open spec fn start_from_answers(
    app_path: Seq<char>,
    domain_name: Seq<char>,
    properties: &Properties,
    answers: Seq<Resolution>,
    outcome: Result<InitializeCall, CoreClrError>,
) -> bool {
    if all_resolved(answers) {
        start_result(
            app_path,
            domain_name,
            property_keys(
                resolved_texts(answers),
                properties.application_paths()@,
                properties.native_paths()@,
                properties.pinvoke_paths()@,
                properties.resource_paths()@,
            ),
            property_values(
                resolved_texts(answers),
                properties.application_paths()@,
                properties.native_paths()@,
                properties.pinvoke_paths()@,
                properties.resource_paths()@,
            ),
            outcome,
        )
    } else {
        reports_first_failure(answers, outcome)
    }
}

/// The start failed because a trusted file of `properties` did not resolve.
/// This needs a trusted file: without one nothing is resolved.
pub open spec fn unresolved(
    properties: &Properties,
    outcome: Result<InitializeCall, CoreClrError>,
) -> bool {
    &&& properties.trusted_files()@.len() > 0
    &&& outcome is Err
    &&& outcome->Err_0 is IoError || outcome->Err_0 is PathError
}

impl CoreClr {
    /// The host handle that the engine gave, zero before it was started.
    pub closed spec fn spec_host_handle(&self) -> usize {
        self.host_handle
    }

    /// The domain that the engine gave, zero before it was started.
    pub closed spec fn spec_domain_id(&self) -> u32 {
        self.domain_id
    }

    /// Whether the engine was started.
    pub closed spec fn spec_initialized(&self) -> bool {
        self.initialized
    }

    /// The handle of an engine that was bound and not started yet.
    pub open spec fn is_fresh(&self) -> bool {
        &&& self.spec_host_handle() == 0
        &&& self.spec_domain_id() == 0
        &&& !self.spec_initialized()
    }

    /// The handle for an engine that was looked for on the default search
    /// path. `binding` says how opening the library and resolving its three
    /// entry points went: a bound engine gets a fresh handle, and a failure is
    /// reported with the loader's message and gives no handle.
    pub fn load(binding: Result<(), String>) -> (outcome: Result<CoreClr, CoreClrError>)
        ensures
            match binding {
                Ok(_) => outcome is Ok && outcome->Ok_0.is_fresh(),
                Err(message) => outcome == Err::<CoreClr, CoreClrError>(
                    CoreClrError::LibraryError(message),
                ),
            },
    {
        match binding {
            Ok(_) => Ok(CoreClr { host_handle: 0, domain_id: 0, initialized: false }),
            Err(message) => Err(CoreClrError::LibraryError(message)),
        }
    }

    /// The handle for an engine that was looked for in a given directory.
    /// `located` says whether the directory holds the library's file, and
    /// `binding` how opening it went. A directory without the file gives a
    /// load failure and no handle, whatever `binding` says.
    pub fn load_from(located: bool, binding: Result<(), String>) -> (outcome: Result<
        CoreClr,
        CoreClrError,
    >)
        ensures
            located ==> match binding {
                Ok(_) => outcome is Ok && outcome->Ok_0.is_fresh(),
                Err(message) => outcome == Err::<CoreClr, CoreClrError>(
                    CoreClrError::LibraryError(message),
                ),
            },
            !located ==> (outcome matches Err(CoreClrError::LibraryError(message)) && message@
                == "Library file not found."@),
    {
        if located {
            CoreClr::load(binding)
        } else {
            Err(CoreClrError::LibraryError(String::from_str("Library file not found.")))
        }
    }

    /// The host handle that the engine gave, zero before it was started.
    pub fn host_handle(&self) -> (handle: usize)
        ensures
            handle == self.spec_host_handle(),
    {
        self.host_handle
    }

    /// The domain that the engine gave, zero before it was started.
    pub fn domain_id(&self) -> (domain: u32)
        ensures
            domain == self.spec_domain_id(),
    {
        self.domain_id
    }

    /// Whether the engine was started.
    pub fn is_initialized(&self) -> (started: bool)
        ensures
            started == self.spec_initialized(),
    {
        self.initialized
    }

    /// Puts together what starts the engine, from the two names and from
    /// property arrays that were built before. Every text is looked through
    /// for NUL bytes, so that a call that is handed out holds none.
    pub fn initialize_with(
        app_path: &str,
        domain_name: &str,
        keys: Vec<String>,
        values: Vec<String>,
    ) -> (outcome: Result<InitializeCall, CoreClrError>)
        ensures
            start_result(app_path@, domain_name@, texts(keys@), texts(values@), outcome),
            outcome matches Ok(call) ==> call.keys == keys && call.values == values,
    {
        match native_string(app_path) {
            Err(error) => Err(error),
            Ok(exe_path) => match native_string(domain_name) {
                Err(error) => Err(error),
                Ok(friendly_name) => match check_native(&keys) {
                    Err(error) => Err(error),
                    Ok(_) => match check_native(&values) {
                        Err(error) => Err(error),
                        Ok(_) => Ok(InitializeCall { exe_path, friendly_name, keys, values }),
                    },
                },
            },
        }
    }

    /// Puts together what starts the engine: the two names and the property
    /// arrays of `properties`, whose trusted files are resolved on disk now. A
    /// NUL byte in the path is reported first, then one in the domain's name.
    /// After that the call fails where a trusted file no longer resolves, and
    /// else gives what `initialize_with` gives for the arrays that were built.
    /// The handle does not change before the engine has answered.
    pub fn initialize(&self, app_path: &str, domain_name: &str, properties: &Properties) -> (outcome:
        Result<InitializeCall, CoreClrError>)
        ensures
            !is_native(app_path@) ==> reports_nul(app_path@, outcome),
            is_native(app_path@) && !is_native(domain_name@) ==> reports_nul(domain_name@, outcome),
            is_native(app_path@) && is_native(domain_name@) ==> unresolved(properties, outcome)
                || exists|trusted: Seq<Seq<char>>|
                trusted.len() == properties.trusted_files()@.len() && start_result(
                    app_path@,
                    domain_name@,
                    property_keys(
                        trusted,
                        properties.application_paths()@,
                        properties.native_paths()@,
                        properties.pinvoke_paths()@,
                        properties.resource_paths()@,
                    ),
                    property_values(
                        trusted,
                        properties.application_paths()@,
                        properties.native_paths()@,
                        properties.pinvoke_paths()@,
                        properties.resource_paths()@,
                    ),
                    outcome,
                ),
            is_native(app_path@) && is_native(domain_name@) ==> exists|answers: Seq<Resolution>|
                answers_for(properties.trusted_files()@, answers) && start_from_answers(
                    app_path@,
                    domain_name@,
                    properties,
                    answers,
                    outcome,
                ),
            outcome matches Ok(call) ==> call.keys@.len() == call.values@.len(),
    {
        proof {
            lemma_nul_free_text(app_path@);
            lemma_nul_free_text(domain_name@);
        }
        match nul_position(app_path) {
            Some(position) => {
                return Err(CoreClrError::FfiError(position));
            },
            None => {},
        }
        match nul_position(domain_name) {
            Some(position) => {
                return Err(CoreClrError::FfiError(position));
            },
            None => {},
        }
        let built = properties.to_property_arrays();
        let ghost snapshot = built;
        let ghost answers = choose|answers: Seq<Resolution>|
            answers_for(properties.trusted_files()@, answers) && arrays_result(
                properties,
                answers,
                snapshot,
            );
        match built {
            Err(error) => {
                let outcome = Err(error);
                proof {
                    lemma_failure_carries(answers, snapshot, outcome);
                    assert(start_from_answers(app_path@, domain_name@, properties, answers, outcome));
                }
                outcome
            },
            Ok(arrays) => {
                let (keys, values) = arrays;
                let outcome = CoreClr::initialize_with(app_path, domain_name, keys, values);
                proof {
                    assert(start_from_answers(app_path@, domain_name@, properties, answers, outcome));
                }
                outcome
            },
        }
    }

    /// Takes in the engine's answer to its start. A status of zero or more is
    /// a success: the handle takes the host handle and the domain that the
    /// engine gave, and counts as started. A negative status is an
    /// initialization failure and leaves the handle as it was.
    pub fn finish_initialize(&mut self, status: i32, host_handle: usize, domain_id: u32) -> (outcome:
        Result<(), CoreClrError>)
        ensures
            status >= 0 ==> outcome is Ok && final(self).spec_host_handle() == host_handle
                && final(self).spec_domain_id() == domain_id && final(self).spec_initialized(),
            status < 0 ==> outcome == Err::<(), CoreClrError>(CoreClrError::InitializationFailure)
                && *final(self) == *old(self),
    {
        if status >= 0 {
            self.host_handle = host_handle;
            self.domain_id = domain_id;
            self.initialized = true;
            Ok(())
        } else {
            Err(CoreClrError::InitializationFailure)
        }
    }

    /// Puts together what asks the engine for a delegate: the assembly's name
    /// with its version, the type's name, the method's name, and the host
    /// handle and domain of this engine. The names are converted first: a NUL
    /// byte is reported for the assembly's name, then the type's, then the
    /// method's, whether the engine was started or not. With names that are
    /// fit for the engine, an engine that was not started has no delegates:
    /// the request is refused as not found.
    pub fn create_delegate(
        &self,
        lib_name: &str,
        version: &str,
        namespace: &str,
        class: &str,
        fn_name: &str,
    ) -> (outcome: Result<DelegateCall, CoreClrError>)
        ensures
            delegate_result(
                self.spec_initialized(),
                self.spec_host_handle(),
                self.spec_domain_id(),
                assembly_name_of(lib_name@, version@),
                qualified_class_of(namespace@, class@),
                fn_name@,
                outcome,
            ),
            outcome is Ok <==> self.spec_initialized() && is_native(lib_name@) && is_native(
                version@,
            ) && is_native(namespace@) && is_native(class@) && is_native(fn_name@),
    {
        proof {
            lemma_assembly_name_native(lib_name@, version@);
            lemma_qualified_class_native(namespace@, class@);
        }
        let mut assembly = String::from_str(lib_name);
        assembly.append(", Version=");
        assembly.append(version);
        let mut qualified_class = String::from_str(namespace);
        qualified_class.append(".");
        qualified_class.append(class);
        match native_string(assembly.as_str()) {
            Err(error) => Err(error),
            Ok(assembly_name) => match native_string(qualified_class.as_str()) {
                Err(error) => Err(error),
                Ok(qualified_class) => match native_string(fn_name) {
                    Err(error) => Err(error),
                    Ok(method_name) => if self.initialized {
                        Ok(
                            DelegateCall {
                                host_handle: self.host_handle,
                                domain_id: self.domain_id,
                                assembly_name,
                                qualified_class,
                                method_name,
                            },
                        )
                    } else {
                        Err(CoreClrError::NotFound)
                    },
                },
            },
        }
    }

    /// Takes in the engine's answer to a request for a delegate: a status of
    /// zero or more gives the address that the engine handed out, and a
    /// negative one means that the engine did not find the method.
    pub fn finish_create_delegate(&self, status: i32, address: usize) -> (outcome: Result<
        usize,
        CoreClrError,
    >)
        ensures
            status >= 0 ==> outcome == Ok::<usize, CoreClrError>(address),
            status < 0 ==> outcome == Err::<usize, CoreClrError>(CoreClrError::NotFound),
    {
        if status >= 0 {
            Ok(address)
        } else {
            Err(CoreClrError::NotFound)
        }
    }

    /// Gives the handle up. An engine that was started is to be stopped, with
    /// its host handle and domain, before its library is unloaded; one that
    /// was never started is not called at all.
    pub fn release(self) -> (shutdown: Option<ShutdownCall>)
        ensures
            self.spec_initialized() ==> shutdown == Some(
                ShutdownCall {
                    host_handle: self.spec_host_handle(),
                    domain_id: self.spec_domain_id(),
                },
            ),
            !self.spec_initialized() ==> shutdown is None,
    {
        if self.initialized {
            Some(ShutdownCall { host_handle: self.host_handle, domain_id: self.domain_id })
        } else {
            None
        }
    }
}

/// What asking for a delegate by the three names gives: the first NUL byte
/// among them; for names without one, not found where the engine was not
/// started, and else the call with the engine's host handle and domain.
pub open spec fn delegate_result(
    started: bool,
    host_handle: usize,
    domain_id: u32,
    assembly_name: Seq<char>,
    qualified_class: Seq<char>,
    method_name: Seq<char>,
    outcome: Result<DelegateCall, CoreClrError>,
) -> bool {
    if !is_native(assembly_name) {
        reports_nul(assembly_name, outcome)
    } else if !is_native(qualified_class) {
        reports_nul(qualified_class, outcome)
    } else if !is_native(method_name) {
        reports_nul(method_name, outcome)
    } else if !started {
        outcome == Err::<DelegateCall, CoreClrError>(CoreClrError::NotFound)
    } else {
        outcome matches Ok(call) && call.host_handle == host_handle && call.domain_id == domain_id
            && call.assembly_name@ == assembly_name && call.qualified_class@ == qualified_class
            && call.method_name@ == method_name
    }
}

/// A text made of two holds the NUL character exactly if one of the two does.
pub proof fn lemma_native_concat(left: Seq<char>, right: Seq<char>)
    ensures
        is_native(left + right) <==> is_native(left) && is_native(right),
{
    let whole = left + right;
    if !is_native(left) {
        let i = choose|i: int| 0 <= i < left.len() && left[i] == '\0';
        assert(whole[i] == '\0');
    }
    if !is_native(right) {
        let i = choose|i: int| 0 <= i < right.len() && right[i] == '\0';
        assert(whole[left.len() + i] == '\0');
    }
    if !is_native(whole) {
        let i = choose|i: int| 0 <= i < whole.len() && whole[i] == '\0';
        if i < left.len() {
            assert(left[i] == '\0');
        } else {
            assert(right[i - left.len()] == '\0');
        }
    }
}

/// An assembly's full name can be handed to the engine exactly if its name
/// and its version can.
pub proof fn lemma_assembly_name_native(lib_name: Seq<char>, version: Seq<char>)
    ensures
        is_native(assembly_name_of(lib_name, version)) <==> is_native(lib_name) && is_native(
            version,
        ),
{
    reveal_strlit(", Version=");
    let infix = ", Version="@;
    assert(is_native(infix)) by {
        assert forall|i: int| 0 <= i < infix.len() implies infix[i] != '\0' by {}
    }
    lemma_native_concat(lib_name, infix);
    lemma_native_concat(lib_name + infix, version);
}

/// A type's full name can be handed to the engine exactly if its namespace
/// and its class can.
pub proof fn lemma_qualified_class_native(namespace: Seq<char>, class: Seq<char>)
    ensures
        is_native(qualified_class_of(namespace, class)) <==> is_native(namespace) && is_native(
            class,
        ),
{
    reveal_strlit(".");
    let infix = "."@;
    assert(is_native(infix)) by {
        assert forall|i: int| 0 <= i < infix.len() implies infix[i] != '\0' by {}
    }
    lemma_native_concat(namespace, infix);
    lemma_native_concat(namespace + infix, class);
}

} // verus!

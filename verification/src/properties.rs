//! The five collections that configure the engine, and the parallel key and
//! value arrays in which they are handed to it.
use vstd::prelude::*;
use vstd::string::*;
use crate::assemblies::{
    all_resolved, answers_for, collect_result, lemma_failure_carries, reports_first_failure,
    resolved_texts, Assemblies, Resolution,
};
use crate::error::CoreClrError;
use crate::paths::Paths;
use crate::text::{join, joined, texts};

verus! {

/// Key of the files that the engine may load.
pub const TRUSTED_PLATFORM_ASSEMBLIES: &'static str = "TRUSTED_PLATFORM_ASSEMBLIES";

/// Key of the directories that are searched for the application's libraries.
pub const APP_PATHS: &'static str = "APP_PATHS";

/// Key of the directories that are searched for native images.
pub const APP_NI_PATHS: &'static str = "APP_NI_PATHS";

/// Key of the directories that are searched for native libraries.
pub const NATIVE_DLL_SEARCH_DIRECTORIES: &'static str = "NATIVE_DLL_SEARCH_DIRECTORIES";

/// Key of the directories that are searched for resources.
pub const PLATFORM_RESOURCE_ROOTS: &'static str = "PLATFORM_RESOURCE_ROOTS";

/// The configuration of one engine.
#[derive(Debug)]
pub struct Properties {
    trusted: Assemblies,
    app: Paths,
    native: Paths,
    pinvoke: Paths,
    resource: Paths,
}

/// The key of one collection: present only where the collection holds
/// something.
pub open spec fn key_of(key: Seq<char>, paths: Seq<Seq<char>>) -> Seq<Seq<char>> {
    if paths.len() == 0 {
        Seq::empty()
    } else {
        seq![key]
    }
}

/// The value of one collection, its paths joined: present only where the
/// collection holds something.
pub open spec fn value_of(paths: Seq<Seq<char>>) -> Seq<Seq<char>> {
    if paths.len() == 0 {
        Seq::empty()
    } else {
        seq![joined(paths)]
    }
}

/// The keys that are handed to the engine, for the canonical paths of the
/// trusted files and for the four directory sets, in the engine's order.
pub open spec fn property_keys(
    trusted: Seq<Seq<char>>,
    app: Seq<Seq<char>>,
    native: Seq<Seq<char>>,
    pinvoke: Seq<Seq<char>>,
    resource: Seq<Seq<char>>,
) -> Seq<Seq<char>> {
    key_of(TRUSTED_PLATFORM_ASSEMBLIES@, trusted) + key_of(APP_PATHS@, app) + key_of(
        APP_NI_PATHS@,
        native,
    ) + key_of(NATIVE_DLL_SEARCH_DIRECTORIES@, pinvoke) + key_of(
        PLATFORM_RESOURCE_ROOTS@,
        resource,
    )
}

/// The values that are handed to the engine, each at the place of its key.
pub open spec fn property_values(
    trusted: Seq<Seq<char>>,
    app: Seq<Seq<char>>,
    native: Seq<Seq<char>>,
    pinvoke: Seq<Seq<char>>,
    resource: Seq<Seq<char>>,
) -> Seq<Seq<char>> {
    value_of(trusted) + value_of(app) + value_of(native) + value_of(pinvoke) + value_of(resource)
}

/// Appends one collection's key and value where the collection holds
/// something.
pub(crate) fn push_property(keys: &mut Vec<String>, values: &mut Vec<String>, key: &str, paths: &Vec<String>)
    ensures
        texts(final(keys)@) == texts(old(keys)@) + key_of(key@, texts(paths@)),
        texts(final(values)@) == texts(old(values)@) + value_of(texts(paths@)),
{
    if paths.len() > 0 {
        keys.push(String::from_str(key));
        values.push(join(paths));
    }
    proof {
        assert(texts(final(keys)@) =~= texts(old(keys)@) + key_of(key@, texts(paths@)));
        assert(texts(final(values)@) =~= texts(old(values)@) + value_of(texts(paths@)));
    }
}

/// What building the arrays gives, from what resolving each trusted file
/// gave: where every file resolved, the keys and values for their canonical
/// paths and for the four directory sets, and else the first failure.
pub open spec fn arrays_result(
    properties: &Properties,
    answers: Seq<Resolution>,
    outcome: Result<(Vec<String>, Vec<String>), CoreClrError>,
) -> bool {
    if all_resolved(answers) {
        outcome matches Ok(arrays) && texts(arrays.0@) == property_keys(
            resolved_texts(answers),
            properties.application_paths()@,
            properties.native_paths()@,
            properties.pinvoke_paths()@,
            properties.resource_paths()@,
        ) && texts(arrays.1@) == property_values(
            resolved_texts(answers),
            properties.application_paths()@,
            properties.native_paths()@,
            properties.pinvoke_paths()@,
            properties.resource_paths()@,
        )
    } else {
        reports_first_failure(answers, outcome)
    }
}

impl Properties {
    /// The trusted files.
    pub closed spec fn trusted_files(&self) -> Assemblies {
        self.trusted
    }

    /// The application's directories.
    pub closed spec fn application_paths(&self) -> Paths {
        self.app
    }

    /// The directories of native images.
    pub closed spec fn native_paths(&self) -> Paths {
        self.native
    }

    /// The directories of native libraries.
    pub closed spec fn pinvoke_paths(&self) -> Paths {
        self.pinvoke
    }

    /// The directories of resources.
    pub closed spec fn resource_paths(&self) -> Paths {
        self.resource
    }

    /// All five collections are empty.
    pub open spec fn is_blank(&self) -> bool {
        &&& self.trusted_files()@.len() == 0
        &&& self.application_paths()@.len() == 0
        &&& self.native_paths()@.len() == 0
        &&& self.pinvoke_paths()@.len() == 0
        &&& self.resource_paths()@.len() == 0
    }

    /// A configuration with five empty collections.
    pub fn new() -> (blank: Properties)
        ensures
            blank.is_blank(),
            blank.application_paths().wf(),
            blank.native_paths().wf(),
            blank.pinvoke_paths().wf(),
            blank.resource_paths().wf(),
    {
        Properties {
            trusted: Assemblies::new(),
            app: Paths::new(),
            native: Paths::new(),
            pinvoke: Paths::new(),
            resource: Paths::new(),
        }
    }

    /// The trusted files, to be filled by the caller. Nothing else changes.
    pub fn trusted(&mut self) -> (list: &mut Assemblies)
        ensures
            *list == old(self).trusted_files(),
            final(self).trusted_files() == *final(list),
            final(self).application_paths() == old(self).application_paths(),
            final(self).native_paths() == old(self).native_paths(),
            final(self).pinvoke_paths() == old(self).pinvoke_paths(),
            final(self).resource_paths() == old(self).resource_paths(),
    {
        &mut self.trusted
    }

    /// The application's directories, to be filled by the caller. Nothing else
    /// changes.
    pub fn application(&mut self) -> (set: &mut Paths)
        ensures
            *set == old(self).application_paths(),
            final(self).application_paths() == *final(set),
            final(self).trusted_files() == old(self).trusted_files(),
            final(self).native_paths() == old(self).native_paths(),
            final(self).pinvoke_paths() == old(self).pinvoke_paths(),
            final(self).resource_paths() == old(self).resource_paths(),
    {
        &mut self.app
    }

    /// The directories of native images, to be filled by the caller. Nothing
    /// else changes.
    pub fn native(&mut self) -> (set: &mut Paths)
        ensures
            *set == old(self).native_paths(),
            final(self).native_paths() == *final(set),
            final(self).trusted_files() == old(self).trusted_files(),
            final(self).application_paths() == old(self).application_paths(),
            final(self).pinvoke_paths() == old(self).pinvoke_paths(),
            final(self).resource_paths() == old(self).resource_paths(),
    {
        &mut self.native
    }

    /// The directories of native libraries, to be filled by the caller.
    /// Nothing else changes.
    pub fn pinvoke(&mut self) -> (set: &mut Paths)
        ensures
            *set == old(self).pinvoke_paths(),
            final(self).pinvoke_paths() == *final(set),
            final(self).trusted_files() == old(self).trusted_files(),
            final(self).application_paths() == old(self).application_paths(),
            final(self).native_paths() == old(self).native_paths(),
            final(self).resource_paths() == old(self).resource_paths(),
    {
        &mut self.pinvoke
    }

    /// The directories of resources, to be filled by the caller. Nothing else
    /// changes.
    pub fn resource(&mut self) -> (set: &mut Paths)
        ensures
            *set == old(self).resource_paths(),
            final(self).resource_paths() == *final(set),
            final(self).trusted_files() == old(self).trusted_files(),
            final(self).application_paths() == old(self).application_paths(),
            final(self).native_paths() == old(self).native_paths(),
            final(self).pinvoke_paths() == old(self).pinvoke_paths(),
    {
        &mut self.resource
    }

    /// The key and value arrays for the four directory sets of this
    /// configuration and for the trusted files whose canonical paths are
    /// `trusted`. The arrays are parallel: a value stands at the place of its
    /// key.
    pub fn arrays_with(&self, trusted: &Vec<String>) -> (arrays: (Vec<String>, Vec<String>))
        ensures
            texts(arrays.0@) == property_keys(
                texts(trusted@),
                self.application_paths()@,
                self.native_paths()@,
                self.pinvoke_paths()@,
                self.resource_paths()@,
            ),
            texts(arrays.1@) == property_values(
                texts(trusted@),
                self.application_paths()@,
                self.native_paths()@,
                self.pinvoke_paths()@,
                self.resource_paths()@,
            ),
            arrays.0@.len() == arrays.1@.len(),
    {
        let mut keys: Vec<String> = Vec::new();
        let mut values: Vec<String> = Vec::new();
        proof {
            assert(texts(keys@) =~= Seq::<Seq<char>>::empty());
            assert(texts(values@) =~= Seq::<Seq<char>>::empty());
        }
        push_property(&mut keys, &mut values, TRUSTED_PLATFORM_ASSEMBLIES, trusted);
        self.app.push_into(&mut keys, &mut values, APP_PATHS);
        self.native.push_into(&mut keys, &mut values, APP_NI_PATHS);
        self.pinvoke.push_into(&mut keys, &mut values, NATIVE_DLL_SEARCH_DIRECTORIES);
        self.resource.push_into(&mut keys, &mut values, PLATFORM_RESOURCE_ROOTS);
        proof {
            assert(texts(keys@) =~= property_keys(
                texts(trusted@),
                self.application_paths()@,
                self.native_paths()@,
                self.pinvoke_paths()@,
                self.resource_paths()@,
            ));
            assert(texts(values@) =~= property_values(
                texts(trusted@),
                self.application_paths()@,
                self.native_paths()@,
                self.pinvoke_paths()@,
                self.resource_paths()@,
            ));
            lemma_arrays_are_parallel(
                texts(trusted@),
                self.application_paths()@,
                self.native_paths()@,
                self.pinvoke_paths()@,
                self.resource_paths()@,
            );
            assert(texts(keys@).len() == keys@.len());
            assert(texts(values@).len() == values@.len());
        }
        (keys, values)
    }

    /// The key and value arrays of this configuration. The trusted files are
    /// resolved on disk now: the arrays are those for the canonical paths that
    /// resolving gave, and the call fails with the failure of the first file
    /// that did not resolve to a path as text; with no trusted file it always
    /// succeeds.
    pub fn to_property_arrays(&self) -> (outcome: Result<(Vec<String>, Vec<String>), CoreClrError>)
        ensures
            exists|answers: Seq<Resolution>|
                answers_for(self.trusted_files()@, answers) && arrays_result(self, answers, outcome),
            outcome matches Ok(arrays) ==> arrays.0@.len() == arrays.1@.len() && exists|
                trusted: Seq<Seq<char>>,
            |
                trusted.len() == self.trusted_files()@.len() && texts(arrays.0@) == property_keys(
                    trusted,
                    self.application_paths()@,
                    self.native_paths()@,
                    self.pinvoke_paths()@,
                    self.resource_paths()@,
                ) && texts(arrays.1@) == property_values(
                    trusted,
                    self.application_paths()@,
                    self.native_paths()@,
                    self.pinvoke_paths()@,
                    self.resource_paths()@,
                ),
            outcome matches Err(error) ==> error is IoError || error is PathError,
            self.trusted_files()@.len() == 0 ==> outcome is Ok,
    {
        let resolved = self.trusted.canonical();
        let ghost snapshot = resolved;
        let ghost answers = choose|answers: Seq<Resolution>|
            answers_for(self.trusted_files()@, answers) && collect_result(answers, snapshot);
        match resolved {
            Ok(trusted) => {
                let arrays = self.arrays_with(&trusted);
                let outcome = Ok(arrays);
                proof {
                    assert(texts(trusted@).len() == self.trusted_files()@.len());
                    assert(arrays_result(self, answers, outcome));
                }
                outcome
            },
            Err(error) => {
                let outcome = Err(error);
                proof {
                    lemma_failure_carries(answers, snapshot, outcome);
                    assert(arrays_result(self, answers, outcome));
                }
                outcome
            },
        }
    }
}

impl Default for Properties {
    fn default() -> (blank: Properties)
        ensures
            blank.is_blank(),
    {
        Properties::new()
    }
}

/// The two arrays are parallel, and hold one entry for each collection that
/// is not empty: none for a blank configuration, five at most.
pub proof fn lemma_arrays_are_parallel(
    trusted: Seq<Seq<char>>,
    app: Seq<Seq<char>>,
    native: Seq<Seq<char>>,
    pinvoke: Seq<Seq<char>>,
    resource: Seq<Seq<char>>,
)
    ensures
        property_keys(trusted, app, native, pinvoke, resource).len() == property_values(
            trusted,
            app,
            native,
            pinvoke,
            resource,
        ).len(),
        property_keys(trusted, app, native, pinvoke, resource).len() == key_of(
            TRUSTED_PLATFORM_ASSEMBLIES@,
            trusted,
        ).len() + key_of(APP_PATHS@, app).len() + key_of(APP_NI_PATHS@, native).len() + key_of(
            NATIVE_DLL_SEARCH_DIRECTORIES@,
            pinvoke,
        ).len() + key_of(PLATFORM_RESOURCE_ROOTS@, resource).len(),
        property_keys(trusted, app, native, pinvoke, resource).len() <= 5,
{
}

/// A configuration whose collections are all empty hands the engine two
/// empty arrays.
pub proof fn lemma_blank_configuration_has_no_properties()
    ensures
        property_keys(
            Seq::empty(),
            Seq::empty(),
            Seq::empty(),
            Seq::empty(),
            Seq::empty(),
        ) == Seq::<Seq<char>>::empty(),
        property_values(
            Seq::empty(),
            Seq::empty(),
            Seq::empty(),
            Seq::empty(),
            Seq::empty(),
        ) == Seq::<Seq<char>>::empty(),
{
    let none = Seq::<Seq<char>>::empty();
    assert(property_keys(none, none, none, none, none) =~= none);
    assert(property_values(none, none, none, none, none) =~= none);
}

/// A configuration that holds trusted files and nothing else hands the engine
/// one pair: the key of the trusted files, and their canonical paths joined
/// with `;` in the order in which they were found.
pub proof fn lemma_only_trusted_files(trusted: Seq<Seq<char>>)
    requires
        trusted.len() > 0,
    ensures
        property_keys(
            trusted,
            Seq::empty(),
            Seq::empty(),
            Seq::empty(),
            Seq::empty(),
        ) == seq![TRUSTED_PLATFORM_ASSEMBLIES@],
        property_values(
            trusted,
            Seq::empty(),
            Seq::empty(),
            Seq::empty(),
            Seq::empty(),
        ) == seq![joined(trusted)],
{
    let none = Seq::<Seq<char>>::empty();
    assert(property_keys(trusted, none, none, none, none) =~= seq![TRUSTED_PLATFORM_ASSEMBLIES@]);
    assert(property_values(trusted, none, none, none, none) =~= seq![joined(trusted)]);
}

} // verus!

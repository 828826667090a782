//! What the child is launched with: the executable, its arguments, and the
//! storage mode that its environment carries.

use crate::paths::{default_args, default_args_for};
use crate::text::{split_words, text_of, texts, words};
use vstd::prelude::*;
use vstd::string::*;

verus! {

/// The arguments of the launch: the words of the override where there is
/// one, even if that leaves none; else the default for the executable.
pub open spec fn launch_args(executable: Seq<char>, args_override: Option<Seq<char>>) -> Seq<
    Seq<char>,
> {
    match args_override {
        Some(value) => words(value),
        None => default_args(executable),
    }
}

/// The value of the storage-mode variable in the child's environment: the
/// override where there is one, else `false`, which keeps storage local.
pub open spec fn storage_mode(network_override: Option<Seq<char>>) -> Seq<char> {
    match network_override {
        Some(value) => value,
        None => "false"@,
    }
}

/// The name of the variable that overrides the path of the executable.
pub fn executable_variable() -> (name: &'static str)
    ensures
        name@ == "HUDSON_BACKEND_BIN"@,
{
    "HUDSON_BACKEND_BIN"
}

/// The name of the variable that overrides the launch arguments.
pub fn arguments_variable() -> (name: &'static str)
    ensures
        name@ == "HUDSON_BACKEND_ARGS"@,
{
    "HUDSON_BACKEND_ARGS"
}

/// The name of the variable that selects the storage mode, read from the
/// supervisor's environment and always set in the child's.
pub fn storage_mode_variable() -> (name: &'static str)
    ensures
        name@ == "HUDSON_ENABLE_NEON"@,
{
    "HUDSON_ENABLE_NEON"
}

/// Everything that one launch of the child is made from. It is built once
/// per boot attempt and not changed afterwards.
pub struct LaunchSpec {
    executable: String,
    args: Vec<String>,
    storage_mode: String,
}

impl LaunchSpec {
    /// The path of the executable.
    pub closed spec fn executable_text(&self) -> Seq<char> {
        self.executable@
    }

    /// The arguments, in order.
    pub closed spec fn args_texts(&self) -> Seq<Seq<char>> {
        texts(self.args@)
    }

    /// The value of the storage-mode variable.
    pub closed spec fn storage_mode_text(&self) -> Seq<char> {
        self.storage_mode@
    }

    /// Builds the launch of `executable`. `args_override` replaces the
    /// default arguments wholesale, split at white space; `network_override`
    /// is passed on as the storage mode.
    pub fn build(
        executable: String,
        args_override: Option<String>,
        network_override: Option<String>,
    ) -> (spec: LaunchSpec)
        ensures
            spec.executable_text() == executable@,
            spec.args_texts() == launch_args(executable@, text_of(args_override)),
            spec.storage_mode_text() == storage_mode(text_of(network_override)),
    {
        let args = match args_override {
            Some(value) => split_words(value.as_str()),
            None => default_args_for(executable.as_str()),
        };
        let storage_mode = match network_override {
            Some(value) => value,
            None => String::from_str("false"),
        };
        LaunchSpec { executable, args, storage_mode }
    }

    /// The path of the executable.
    pub fn executable(&self) -> (path: &String)
        ensures
            path@ == self.executable_text(),
    {
        &self.executable
    }

    /// The arguments, in order. Where there are none, none are passed.
    pub fn args(&self) -> (args: &Vec<String>)
        ensures
            texts(args@) == self.args_texts(),
    {
        &self.args
    }

    /// The value that the storage-mode variable gets in the child's
    /// environment.
    pub fn storage_mode(&self) -> (value: &String)
        ensures
            value@ == self.storage_mode_text(),
    {
        &self.storage_mode
    }
}

/// The child runs with local storage unless the override says otherwise:
/// under any reading of the variable that does not take the default for an
/// enabling value, the storage mode is enabling only if the override is set,
/// and set to an enabling value.
pub proof fn offline_unless_enabled(
    network_override: Option<Seq<char>>,
    enabling: spec_fn(Seq<char>) -> bool,
)
    requires
        !enabling("false"@),
    ensures
        enabling(storage_mode(network_override)) <==> network_override is Some && enabling(
            network_override->0,
        ),
        network_override is None ==> storage_mode(network_override) == "false"@,
{
}

} // verus!

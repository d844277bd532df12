//! Service configuration: for each service, its options and their values, as
//! read from the `strauss.yml` file:
//!
//! ```text
//! <service>:
//!     <option>: <value>
//! ```

use crate::string_map::StringMap;
use vstd::prelude::*;

verus! {

/// A source that reads a value of type `D` from the document at a path.
pub trait SerialRead<D> {
    /// `d` is a value this source may give back for the document at `path`.
    /// A source that says nothing more may give back any value.
    open spec fn reads(&self, path: Seq<char>, d: D) -> bool {
        true
    }

    fn read(&self, path: String) -> (d: D)
        ensures
            self.reads(path@, d),
    ;
}

/// Marker for the configuration entry of one service.
pub trait ServiceConfigEntry {}

/// The configuration of all services: service name, then option name, then value.
#[derive(Clone)]
pub struct StraussConfig {
    pub services: StringMap<StringMap<String>>,
}

impl View for StraussConfig {
    type V = Map<Seq<char>, Map<Seq<char>, Seq<char>>>;

    open spec fn view(&self) -> Map<Seq<char>, Map<Seq<char>, Seq<char>>> {
        self.services@.map_values(|options: StringMap<String>| options@.map_values(|v: String| v@))
    }
}

/// Path of the configuration file, relative to the working directory.
pub fn config_file_path() -> (path: String)
    ensures
        path@ == "strauss.yml"@,
{
    String::from_str("strauss.yml")
}

/// Loading a value from the configuration file.
pub trait StraussConfigLoad: Sized {
    fn load(yml_reader: Box<dyn SerialRead<StraussConfig>>) -> Self;
}

impl StraussConfigLoad for StraussConfig {
    /// Reads the configuration through `yml_reader`, from the document at
    /// `strauss.yml`; the result is what the reader gave back for that path.
    fn load(yml_reader: Box<dyn SerialRead<StraussConfig>>) -> (result: StraussConfig)
        ensures
            yml_reader.reads("strauss.yml"@, result),
    {
        yml_reader.read(config_file_path())
    }
}

} // verus!

use vstd::prelude::*;
use crate::error::Error;
use crate::strutil::string_views;

verus! {

/// Structured configuration carried by a mod archive in its
/// `weave.mod.json` entry, with sentinel "undefined" values when absent.
#[derive(Debug)]
pub struct ModConfig {
    pub name: String,
    pub version: String,
    pub description: String,
    pub authors: Vec<String>,
}

/// Mathematical model of a mod configuration.
pub ghost struct ModConfigV {
    pub name: Seq<char>,
    pub version: Seq<char>,
    pub description: Seq<char>,
    pub authors: Seq<Seq<char>>,
}

impl View for ModConfig {
    type V = ModConfigV;

    open spec fn view(&self) -> ModConfigV {
        ModConfigV {
            name: self.name@,
            version: self.version@,
            description: self.description@,
            authors: string_views(self.authors@),
        }
    }
}

/// The default configuration: sentinel values, no authors. An archive
/// without a configuration entry carries this profile; that is a normal
/// case, not an error.
pub open spec fn default_mod_config() -> ModConfigV {
    ModConfigV {
        name: "undefined"@,
        version: "undefined"@,
        description: "undefined"@,
        authors: Seq::empty(),
    }
}

impl Default for ModConfig {
    /// The default configuration value.
    fn default() -> (r: Self)
        ensures
            r@ == default_mod_config(),
    {
        let r = ModConfig {
            name: String::from_str("undefined"),
            version: String::from_str("undefined"),
            description: String::from_str("undefined"),
            authors: Vec::new(),
        };
        proof {
            assert(string_views(r.authors@) =~= Seq::<Seq<char>>::empty());
        }
        r
    }
}

/// One mod of a profile. The entry owns only a file name scoped to the
/// fixed mods directory, never an absolute path, plus the decoded
/// configuration when one was read.
pub struct ModProfileEntry {
    pub config: Option<ModConfig>,
    pub file_name: String,
}

/// A named mod profile: an ordered list of entries. Profile names are
/// unique within a profile store; the store itself is an external
/// collaborator and enforces that.
pub struct ModProfile {
    pub name: String,
    pub mods: Vec<ModProfileEntry>,
}

/// What the named entry of an archive holds: None when the bytes cannot be
/// read as a zip container at all; Some(None) when the container is
/// readable but has no entry of that name; Some(Some(content)) the entry's
/// uncompressed content.
pub uninterp spec fn zip_entry(archive: Seq<u8>, name: Seq<char>) -> Option<Option<Seq<u8>>>;

/// Outcome of looking one named entry up in an archive.
pub enum EntryLookup {
    Found(Vec<u8>),
    Absent,
    Corrupt(String),
}

/// Relies on zip::ZipArchive::new, zip::ZipArchive::by_name and
/// std::io::Read::read_to_end: one named entry read out of an archive held
/// in memory. The outcome is a function of the archive bytes and the entry
/// name; ZipError::FileNotFound is the absent case, every other failure
/// container corruption.
#[verifier::external_body]
fn zip_entry_bytes(archive: &Vec<u8>, name: &str) -> (r: EntryLookup)
    ensures
        r matches EntryLookup::Found(b) ==> zip_entry(archive@, name@) == Some(Some(b@)),
        r is Absent ==> zip_entry(archive@, name@) == Some(None::<Seq<u8>>),
        r matches EntryLookup::Corrupt(_) ==> zip_entry(archive@, name@) is None,
{
    let mut za = match zip::ZipArchive::new(std::io::Cursor::new(archive.clone())) {
        Ok(z) => z,
        Err(e) => return EntryLookup::Corrupt(format!("{}", e)),
    };
    let r = match za.by_name(name) {
        Ok(mut f) => {
            let mut buf = Vec::new();
            let read = std::io::Read::read_to_end(&mut f, &mut buf).map(|_| buf);
            read.map_or_else(|e| EntryLookup::Corrupt(format!("{}", e)), EntryLookup::Found)
        },
        Err(zip::result::ZipError::FileNotFound) => EntryLookup::Absent,
        Err(e) => EntryLookup::Corrupt(format!("{}", e)),
    };
    r
}

/// The decode of a configuration entry's bytes: the name, version,
/// description and authors fields, when the bytes are a JSON object
/// carrying them as strings (authors as an array of strings); None when
/// they are not.
pub uninterp spec fn parsed_mod_config(bytes: Seq<u8>) -> Option<
    (Seq<char>, Seq<char>, Seq<char>, Seq<Seq<char>>),
>;

/// Relies on serde_json::from_slice (parsing into serde_json::Value) and
/// on serde_json::Value::get, as_str and as_array: the decode depends on
/// the bytes alone.
#[verifier::external_body]
fn parse_mod_config_bytes(bytes: &Vec<u8>) -> (r: Option<ModConfig>)
    ensures
        r matches Some(c) ==> parsed_mod_config(bytes@) == Some(
            (c.name@, c.version@, c.description@, string_views(c.authors@)),
        ),
        r is None ==> parsed_mod_config(bytes@) is None,
{
    let v: serde_json::Value = serde_json::from_slice(bytes).ok()?;
    let name = v.get("name")?.as_str()?.to_string();
    let version = v.get("version")?.as_str()?.to_string();
    let description = v.get("description")?.as_str()?.to_string();
    let mut authors = Vec::new();
    for a in v.get("authors")?.as_array()? {
        authors.push(a.as_str()?.to_string());
    }
    Some(ModConfig { name, version, description, authors })
}

/// The configuration a readable archive yields: the decoded entry when it
/// is present and decodes, the default configuration when the entry is
/// absent or present but undecodable. Falling back silently on a malformed
/// entry is this crate's declared policy; only container corruption is an
/// error.
pub open spec fn mod_config_of(entry: Option<Seq<u8>>) -> ModConfigV {
    match entry {
        Some(content) => match parsed_mod_config(content) {
            Some(f) => ModConfigV { name: f.0, version: f.1, description: f.2, authors: f.3 },
            None => default_mod_config(),
        },
        None => default_mod_config(),
    }
}

/// Inspect a mod archive held in memory: locate the `weave.mod.json`
/// entry and decode it. A missing entry yields the default configuration
/// (a normal case, not an error); a present but malformed entry also
/// falls back to the default, silently; container corruption is surfaced
/// as a Zip error.
pub fn read_mod_config(archive: &Vec<u8>) -> (r: Result<Option<ModConfig>, Error>)
    ensures
        r is Err <==> zip_entry(archive@, "weave.mod.json"@) is None,
        r matches Err(e) ==> e is Zip,
        zip_entry(archive@, "weave.mod.json"@) matches Some(entry) ==> (r matches Ok(c)
            && c matches Some(cfg) && cfg@ == mod_config_of(entry)),
{
    match zip_entry_bytes(archive, "weave.mod.json") {
        EntryLookup::Found(content) => match parse_mod_config_bytes(&content) {
            Some(cfg) => Ok(Some(cfg)),
            None => Ok(Some(ModConfig::default())),
        },
        EntryLookup::Absent => Ok(Some(ModConfig::default())),
        EntryLookup::Corrupt(msg) => Err(Error::Zip(msg)),
    }
}

} // verus!

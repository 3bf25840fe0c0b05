//! Configuration as the library reads it: blocks of labels and attributes,
//! and the errors found in them.
use vstd::prelude::*;

use crate::home::{extension, file_extension, join_component, joined, PiingHome};
use crate::text::{decimal, decimal_string};

verus! {

/// One attribute of a block: its key, and its value where that is a string.
#[derive(Debug, Clone)]
pub struct ConfigAttribute {
    pub key: String,
    pub value: Option<String>,
}

/// One block of a configuration file: its labels, then its attributes in the
/// order written.
#[derive(Debug, Clone)]
pub struct ConfigBlock {
    pub labels: Vec<String>,
    pub attributes: Vec<ConfigAttribute>,
}

/// Whether the block's first label is `kind`.
pub open spec fn block_kind_is(block: ConfigBlock, kind: Seq<char>) -> bool {
    block.labels@.len() >= 1 && block.labels@[0]@ == kind
}

pub fn is_block_kind(block: &ConfigBlock, kind: &str) -> (r: bool)
    ensures
        r == block_kind_is(*block, kind@),
{
    if block.labels.len() == 0 {
        return false;
    }
    same_text(block.labels[0].as_str(), kind)
}

/// The first attribute of the block with the key, if any.
pub open spec fn first_attribute(attrs: Seq<ConfigAttribute>, key: Seq<char>) -> Option<
    ConfigAttribute,
>
    decreases attrs.len(),
{
    if attrs.len() == 0 {
        None
    } else if attrs[0].key@ == key {
        Some(attrs[0])
    } else {
        first_attribute(attrs.drop_first(), key)
    }
}

/// What looking an attribute up finds.
#[derive(Debug)]
pub enum Lookup {
    Found(String),
    Missing,
    NotString,
}

/// The string value of the first attribute with the key, or why there is none.
pub open spec fn lookup_spec(block: ConfigBlock, key: Seq<char>) -> Result<Seq<char>, ConfigErrorKind> {
    match first_attribute(block.attributes@, key) {
        None => Err(ConfigErrorKind::MissingAttribute),
        Some(a) => match a.value {
            None => Err(ConfigErrorKind::NotAString),
            Some(v) => Ok(v@),
        },
    }
}

pub(crate) fn same_text(a: &str, b: &str) -> (r: bool)
    ensures
        r == (a@ == b@),
{
    if a.unicode_len() != b.unicode_len() {
        return false;
    }
    assert(a@.subrange(0, b@.len() as int) =~= a@);
    crate::text::starts_with(a, b)
}

/// Looks up the string value of an attribute; see `lookup_spec`.
pub fn lookup_string(block: &ConfigBlock, key: &str) -> (r: Lookup)
    ensures
        lookup_spec(*block, key@) == match r {
            Lookup::Found(v) => Ok(v@),
            Lookup::Missing => Err(ConfigErrorKind::MissingAttribute),
            Lookup::NotString => Err(ConfigErrorKind::NotAString),
        },
{
    let attrs = &block.attributes;
    assert(attrs@ == block.attributes@);
    let n = attrs.len();
    let mut i: usize = 0;
    assert(attrs@.subrange(0, n as int) =~= attrs@);
    while i < n
        invariant
            n == attrs@.len(),
            attrs@ == block.attributes@,
            i <= n,
            first_attribute(attrs@, key@) == first_attribute(attrs@.subrange(i as int, n as int), key@),
        decreases n - i,
    {
        let ghost rest = attrs@.subrange(i as int, n as int);
        assert(rest[0] == attrs@[i as int]);
        if same_text(attrs[i].key.as_str(), key) {
            assert(first_attribute(rest, key@) == Some(rest[0]));
            let attr = &attrs[i];
            assert(*attr == rest[0]);
            return match &attr.value {
                Some(v) => {
                    let found = v.as_str().to_owned();
                    assert(found@ == v@);
                    Lookup::Found(found)
                },
                None => Lookup::NotString,
            };
        }
        assert(rest.drop_first() =~= attrs@.subrange(i + 1, n as int));
        i = i + 1;
    }
    Lookup::Missing
}

/// What is wrong with a configuration block.
#[derive(Debug, Clone, Copy, PartialEq, Eq, Structural)]
pub enum ConfigErrorKind {
    /// A required attribute is absent.
    MissingAttribute,
    /// An attribute that must be a string is not one.
    NotAString,
    /// A mode name is not one of the probe modes.
    InvalidMode,
    /// An interval does not read as a duration.
    InvalidInterval,
}

pub struct ConfigErrorView {
    pub kind: ConfigErrorKind,
    pub file: Seq<char>,
    pub block: Seq<char>,
    pub detail: Seq<char>,
}

/// An error in a configuration file: what is wrong, the file, the block's
/// name, and the attribute's key or the offending value.
#[derive(Debug, Clone)]
pub struct ConfigError {
    pub kind: ConfigErrorKind,
    pub file: String,
    pub block: String,
    pub detail: String,
}

impl View for ConfigError {
    type V = ConfigErrorView;

    open spec fn view(&self) -> ConfigErrorView {
        ConfigErrorView {
            kind: self.kind,
            file: self.file@,
            block: self.block@,
            detail: self.detail@,
        }
    }
}

impl ConfigError {
    pub fn new(kind: ConfigErrorKind, file: &str, block: &str, detail: &str) -> (r: Self)
        ensures
            r@ == (ConfigErrorView { kind, file: file@, block: block@, detail: detail@ }),
    {
        ConfigError {
            kind,
            file: file.to_owned(),
            block: block.to_owned(),
            detail: detail.to_owned(),
        }
    }
}

/// The name of a new configuration file: the time stamp and the stem, then
/// `_<counter>` from the second candidate on, then the extension.
pub open spec fn candidate_name(timestamp: Seq<char>, stem: Seq<char>, counter: u64) -> Seq<char> {
    if counter <= 1 {
        timestamp + "_"@ + stem + ".piing_hcl"@
    } else {
        timestamp + "_"@ + stem + "_"@ + decimal(counter as nat) + ".piing_hcl"@
    }
}

/// Whether a path names a configuration file: its extension is `piing_hcl`.
pub fn is_hcl_file(path: &str) -> (r: bool)
    ensures
        r == (extension(path@) == Some("piing_hcl"@)),
{
    match file_extension(path) {
        Some(e) => same_text(e, "piing_hcl"),
        None => false,
    }
}

/// Where configuration files live.
#[derive(Debug, Clone)]
pub struct ConfigPaths {
    config_dir: String,
}

impl ConfigPaths {
    pub closed spec fn dir(&self) -> Seq<char> {
        self.config_dir@
    }

    /// The configuration directory under the home directory.
    pub fn new(home: &PiingHome) -> (r: Self)
        ensures
            r.dir() == joined(home.0@, "config"@),
    {
        ConfigPaths { config_dir: home.config_dir() }
    }

    pub fn config_dir(&self) -> (r: &str)
        ensures
            r@ == self.dir(),
    {
        self.config_dir.as_str()
    }

    /// The file name tried as the `counter`-th candidate for a new file.
    pub fn candidate_file_name(timestamp: &str, stem: &str, counter: u64) -> (r: String)
        ensures
            r@ == candidate_name(timestamp@, stem@, counter),
    {
        let mut s = timestamp.to_owned();
        s.append("_");
        s.append(stem);
        if counter > 1 {
            s.append("_");
            s.append(decimal_string(counter).as_str());
        }
        s.append(".piing_hcl");
        s
    }

    /// The path of the `counter`-th candidate for a new file in the directory.
    pub fn candidate_path(&self, timestamp: &str, stem: &str, counter: u64) -> (r: String)
        ensures
            r@ == joined(self.dir(), candidate_name(timestamp@, stem@, counter)),
    {
        let name = ConfigPaths::candidate_file_name(timestamp, stem, counter);
        join_component(self.config_dir.as_str(), name.as_str())
    }
}

} // verus!

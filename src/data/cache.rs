use vstd::prelude::*;

verus! {

/// What toml makes of `text` read as a TOML document: the top-level key `key`
/// where it holds a string, else `None` (also where `text` is no TOML).
pub uninterp spec fn toml_str_of(text: Seq<char>, key: Seq<char>) -> Option<Seq<char>>;

/// What toml makes of `text` read as a TOML document: the top-level key `key`
/// where it holds a boolean, else `None` (also where `text` is no TOML).
pub uninterp spec fn toml_bool_of(text: Seq<char>, key: Seq<char>) -> Option<bool>;

/// Relies on toml::from_str into a toml::Table, and on Table::get and
/// Value::as_str to read one top-level string.
#[verifier::external_body]
fn toml_str(text: &str, key: &str) -> (r: Option<String>)
    ensures
        match r {
            Some(s) => toml_str_of(text@, key@) == Some(s@),
            None => toml_str_of(text@, key@) is None,
        },
{
    let table = toml::from_str::<toml::Table>(text).ok()?;
    table.get(key).and_then(|v| v.as_str()).map(|v| v.to_owned())
}

/// Relies on toml::from_str into a toml::Table, and on Table::get and
/// Value::as_bool to read one top-level boolean.
#[verifier::external_body]
fn toml_bool(text: &str, key: &str) -> (r: Option<bool>)
    ensures
        r == toml_bool_of(text@, key@),
{
    let table = toml::from_str::<toml::Table>(text).ok()?;
    table.get(key).and_then(|v| v.as_bool())
}

/// Relies on the Display impl of toml::Table, on a table of one string and
/// one boolean entry: the document it writes reads back through
/// toml::from_str to those two entries.
#[verifier::external_body]
fn toml_document(str_key: &str, s: &str, bool_key: &str, b: bool) -> (r: String)
    requires
        str_key@ != bool_key@,
    ensures
        toml_str_of(r@, str_key@) == Some(s@),
        toml_bool_of(r@, bool_key@) == Some(b),
{
    let mut table = toml::Table::new();
    table.insert(str_key.to_owned(), toml::Value::String(s.to_owned()));
    table.insert(bool_key.to_owned(), toml::Value::Boolean(b));
    table.to_string()
}

/// The metadata stored beside a cached credential: the instance it is for and
/// whether it is encrypted.
#[derive(Debug, Clone)]
pub struct Cache {
    pub instance: String,
    pub protect: bool,
}

impl Cache {
    pub open spec fn view(self) -> (Seq<char>, bool) {
        (self.instance@, self.protect)
    }

    /// The metadata a file holds: both keys with the right types, or nothing.
    pub open spec fn parsed(text: Seq<char>) -> Option<(Seq<char>, bool)> {
        match (toml_str_of(text, "instance"@), toml_bool_of(text, "protect"@)) {
            (Some(i), Some(p)) => Some((i, p)),
            _ => None,
        }
    }

    pub open spec fn opt_view(c: Option<Cache>) -> Option<(Seq<char>, bool)> {
        match c {
            Some(c) => Some(c.view()),
            None => None,
        }
    }

    /// Reads the metadata from the text of its file, `None` where there is no
    /// file; a file that does not hold the metadata counts as none.
    pub fn load(file: Option<&str>) -> (r: Option<Cache>)
        ensures
            Cache::opt_view(r) == match file {
                None => None,
                Some(text) => Cache::parsed(text@),
            },
    {
        match file {
            None => None,
            Some(text) => {
                let instance = toml_str(text, "instance");
                let protect = toml_bool(text, "protect");
                match (instance, protect) {
                    (Some(instance), Some(protect)) => Some(Cache { instance, protect }),
                    _ => None,
                }
            },
        }
    }

    /// The text of the metadata file: it loads back to this metadata.
    pub fn dump(&self) -> (r: String)
        ensures
            Cache::parsed(r@) == Some(self.view()),
    {
        proof {
            reveal_strlit("instance");
            reveal_strlit("protect");
            assert("instance"@.len() != "protect"@.len());
        }
        toml_document("instance", self.instance.as_str(), "protect", self.protect)
    }
}

} // verus!

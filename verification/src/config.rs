use vstd::prelude::*;
use crate::text::opt_view;
use crate::error::ErrorHandling;
use crate::text::same_text;

verus! {

/// The database settings read from `config.yaml`.
#[derive(Debug, Clone)]
pub struct PostgreConfig {
    pub host: String,
    pub username: String,
    pub password: String,
}

/// One entry of a YAML mapping, as the settings reader sees it: the key
/// and the value where they are strings, `None` where they are any other
/// kind of node.
#[derive(Debug, Clone)]
pub struct YamlEntry {
    pub key: Option<String>,
    pub value: Option<String>,
}

/// One YAML document: a mapping with its entries in order, or any other
/// kind of node.
#[derive(Debug, Clone)]
pub enum YamlDocument {
    Mapping(Vec<YamlEntry>),
    Other,
}

pub open spec fn entry_view(e: YamlEntry) -> (Option<Seq<char>>, Option<Seq<char>>) {
    (opt_view(e.key), opt_view(e.value))
}

pub open spec fn document_view(d: YamlDocument) -> Option<Seq<(Option<Seq<char>>, Option<Seq<char>>)>> {
    match d {
        YamlDocument::Mapping(es) => Some(es@.map_values(|e: YamlEntry| entry_view(e))),
        YamlDocument::Other => None,
    }
}

pub open spec fn documents_view(ds: Seq<YamlDocument>) -> Seq<Option<Seq<(Option<Seq<char>>, Option<Seq<char>>)>>> {
    ds.map_values(|d: YamlDocument| document_view(d))
}

/// `yaml_rust2::ScanError`, carried through opaquely.
#[verifier::external_type_specification]
#[verifier::external_body]
pub struct ExScanError(yaml_rust2::ScanError);

/// What `yaml_rust2::YamlLoader::load_from_str` makes of a text, as plain
/// values: `None` where it fails; else each document, as the list of its
/// entries (key and value where each is a string) when it is a mapping, or
/// `None` when it is any other node.
pub uninterp spec fn yaml_documents(text: Seq<char>) -> Option<Seq<Option<Seq<(Option<Seq<char>>, Option<Seq<char>>)>>>>;

/// Calls `yaml_rust2::YamlLoader::load_from_str` and converts each document
/// one for one: a mapping (`Yaml::into_hash`) to its entries, each key and
/// value through `Yaml::into_string`; any other node to `Other`. The
/// contract claims only that the outcome is a function of the text.
#[verifier::external_body]
fn load_yaml(text: &str) -> (res: Result<Vec<YamlDocument>, yaml_rust2::ScanError>)
    ensures
        match res {
            Ok(ds) => yaml_documents(text@) == Some(documents_view(ds@)),
            Err(_) => yaml_documents(text@) is None,
        },
{
    let docs = yaml_rust2::YamlLoader::load_from_str(text)?;
    Ok(docs.into_iter().map(|d| match d.into_hash() {
        Some(h) => YamlDocument::Mapping(h.into_iter().map(|(k, v)| YamlEntry {
            key: k.into_string(),
            value: v.into_string(),
        }).collect()),
        None => YamlDocument::Other,
    }).collect())
}

/// The key of the database host.
pub const HOST_KEY: &'static str = "host";
/// The key of the database user.
pub const USERNAME_KEY: &'static str = "username";
/// The key of the database password.
pub const PASSWORD_KEY: &'static str = "password";

/// The string value of `key` in a mapping: the value of the first entry
/// with that key when it is a string, and the empty string when the key is
/// absent or its value is not a string.
pub open spec fn mapping_text(entries: Seq<(Option<Seq<char>>, Option<Seq<char>>)>, key: Seq<char>) -> Seq<char>
    decreases entries.len(),
{
    if entries.len() == 0 {
        seq![]
    } else if entries[0].0 == Some(key) {
        match entries[0].1 {
            Some(v) => v,
            None => seq![],
        }
    } else {
        mapping_text(entries.drop_first(), key)
    }
}

pub open spec fn text_or_empty(v: Option<Seq<char>>) -> Seq<char> {
    match v {
        Some(t) => t,
        None => seq![],
    }
}

/// A setting is read from the first entry whose key is exactly that
/// setting's name: its string value, or empty when the value is no string.
/// Entries with any other key, however alike, are passed over, and a
/// setting that no entry names is empty.
pub proof fn lemma_mapping_text_exact_key(entries: Seq<(Option<Seq<char>>, Option<Seq<char>>)>, key: Seq<char>)
    ensures
        forall|i: int|
            0 <= i < entries.len() && #[trigger] entries[i].0 == Some(key) && (forall|j: int|
                0 <= j < i ==> entries[j].0 != Some(key)) ==> mapping_text(entries, key)
                == text_or_empty(entries[i].1),
        (forall|i: int| 0 <= i < entries.len() ==> entries[i].0 != Some(key)) ==> mapping_text(
            entries,
            key,
        ) == Seq::<char>::empty(),
        mapping_text(entries, key).len() > 0 ==> exists|i: int|
            0 <= i < entries.len() && #[trigger] entries[i].0 == Some(key) && entries[i].1 == Some(
                mapping_text(entries, key),
            ),
    decreases entries.len(),
{
    if entries.len() > 0 {
        let rest = entries.drop_first();
        lemma_mapping_text_exact_key(rest, key);
        if entries[0].0 != Some(key) {
            assert forall|i: int|
                0 <= i < entries.len() && #[trigger] entries[i].0 == Some(key) && (forall|j: int|
                    0 <= j < i ==> entries[j].0 != Some(key)) implies mapping_text(entries, key)
                == text_or_empty(entries[i].1) by {
                assert(i > 0);
                assert(rest[i - 1] == entries[i]);
                assert forall|j: int| 0 <= j < i - 1 implies rest[j].0 != Some(key) by {
                    assert(rest[j] == entries[j + 1]);
                }
            }
            if forall|i: int| 0 <= i < entries.len() ==> entries[i].0 != Some(key) {
                assert forall|i: int| 0 <= i < rest.len() implies rest[i].0 != Some(key) by {
                    assert(rest[i] == entries[i + 1]);
                }
            }
            if mapping_text(entries, key).len() > 0 {
                let i = choose|i: int|
                    0 <= i < rest.len() && #[trigger] rest[i].0 == Some(key) && rest[i].1 == Some(
                        mapping_text(rest, key),
                    );
                assert(entries[i + 1] == rest[i]);
            }
        } else {
            assert forall|i: int|
                0 <= i < entries.len() && #[trigger] entries[i].0 == Some(key) && (forall|j: int|
                    0 <= j < i ==> entries[j].0 != Some(key)) implies mapping_text(entries, key)
                == text_or_empty(entries[i].1) by {
                if i > 0 {
                    assert(entries[0].0 != Some(key));
                }
            }
            if mapping_text(entries, key).len() > 0 {
                assert(entries[0].0 == Some(key));
            }
        }
    }
}

/// An entry in front of a mapping changes a setting only when its key is
/// exactly that setting's name.
pub proof fn lemma_mapping_text_prepend(
    k: Option<Seq<char>>,
    v: Option<Seq<char>>,
    rest: Seq<(Option<Seq<char>>, Option<Seq<char>>)>,
    key: Seq<char>,
)
    ensures
        k != Some(key) ==> mapping_text(seq![(k, v)] + rest, key) == mapping_text(rest, key),
        k == Some(key) ==> mapping_text(seq![(k, v)] + rest, key) == text_or_empty(v),
{
    let e = seq![(k, v)] + rest;
    assert(e.drop_first() =~= rest);
    assert(e[0] == (k, v));
}

fn mapping_lookup(entries: &Vec<YamlEntry>, key: &str) -> (res: String)
    ensures
        res@ == mapping_text(entries@.map_values(|e: YamlEntry| entry_view(e)), key@),
{
    let ghost view = entries@.map_values(|e: YamlEntry| entry_view(e));
    let mut i: usize = 0;
    assert(view.skip(0) =~= view);
    while i < entries.len()
        invariant
            i <= entries@.len(),
            view == entries@.map_values(|e: YamlEntry| entry_view(e)),
            mapping_text(view, key@) == mapping_text(view.skip(i as int), key@),
        decreases entries@.len() - i,
    {
        let e = &entries[i];
        assert(view.skip(i as int)[0] == entry_view(*e));
        let matches = match &e.key {
            Some(k) => same_text(k.as_str(), key),
            None => false,
        };
        if matches {
            return match &e.value {
                Some(v) => v.clone(),
                None => String::new(),
            };
        }
        assert(view.skip(i as int).drop_first() =~= view.skip(i + 1));
        i = i + 1;
    }
    assert(view.skip(i as int) =~= seq![]);
    String::new()
}

/// The settings held by a mapping.
pub open spec fn config_of(entries: Seq<(Option<Seq<char>>, Option<Seq<char>>)>) -> (Seq<char>, Seq<char>, Seq<char>) {
    (mapping_text(entries, HOST_KEY@), mapping_text(entries, USERNAME_KEY@), mapping_text(entries, PASSWORD_KEY@))
}

/// The host, the user and the password are read under the keys `host`,
/// `username` and `password`, each under its own.
pub proof fn lemma_config_keys(entries: Seq<(Option<Seq<char>>, Option<Seq<char>>)>)
    ensures
        config_of(entries).0 == mapping_text(entries, seq!['h', 'o', 's', 't']),
        config_of(entries).1 == mapping_text(entries, seq!['u', 's', 'e', 'r', 'n', 'a', 'm', 'e']),
        config_of(entries).2 == mapping_text(entries, seq!['p', 'a', 's', 's', 'w', 'o', 'r', 'd']),
{
    reveal_strlit("host");
    reveal_strlit("username");
    reveal_strlit("password");
    assert(HOST_KEY@ =~= seq!['h', 'o', 's', 't']);
    assert(USERNAME_KEY@ =~= seq!['u', 's', 'e', 'r', 'n', 'a', 'm', 'e']);
    assert(PASSWORD_KEY@ =~= seq!['p', 'a', 's', 's', 'w', 'o', 'r', 'd']);
}

pub open spec fn config_view(c: PostgreConfig) -> (Seq<char>, Seq<char>, Seq<char>) {
    (c.host@, c.username@, c.password@)
}

/// Reads the settings from the first document, which must be a mapping.
pub fn config_from_documents(docs: &Vec<YamlDocument>) -> (res: PostgreConfig)
    requires
        docs@.len() > 0,
        docs@[0] is Mapping,
    ensures
        config_view(res) == config_of(document_view(docs@[0])->0),
{
    match &docs[0] {
        YamlDocument::Mapping(entries) => PostgreConfig {
            host: mapping_lookup(entries, HOST_KEY),
            username: mapping_lookup(entries, USERNAME_KEY),
            password: mapping_lookup(entries, PASSWORD_KEY),
        },
        YamlDocument::Other => {
            proof {
                assert(false);
            }
            PostgreConfig { host: String::new(), username: String::new(), password: String::new() }
        },
    }
}

/// What reading the settings file yields: the settings; `Ok(None)` where
/// the file has no document or its first document is not a mapping (the
/// caller stops there); an error where the file could not be read or is
/// not YAML.
pub open spec fn settings_file_outcome(
    contents: Option<Seq<char>>,
) -> Result<Option<(Seq<char>, Seq<char>, Seq<char>)>, ()> {
    match contents {
        None => Err(()),
        Some(text) => match yaml_documents(text) {
            None => Err(()),
            Some(ds) => if ds.len() > 0 && ds[0] is Some {
                Ok(Some(config_of(ds[0]->0)))
            } else {
                Ok(None)
            },
        },
    }
}

pub open spec fn prompt_view(r: Result<Option<PostgreConfig>, ErrorHandling>) -> Result<Option<(Seq<char>, Seq<char>, Seq<char>)>, ()> {
    match r {
        Ok(Some(c)) => Ok(Some(config_view(c))),
        Ok(None) => Ok(None),
        Err(_) => Err(()),
    }
}

/// Reads the database settings from the text of the settings file at
/// `path` (`None` where the file could not be read).
pub fn return_prompt(path: &str, contents: Option<String>) -> (res: Result<Option<PostgreConfig>, ErrorHandling>)
    ensures
        prompt_view(res) == settings_file_outcome(opt_view(contents)),
        contents is None ==> (res matches Err(ErrorHandling::IoOperation { path: p }) && p@ == path@),
        contents is Some && yaml_documents(contents->0@) is None ==> res matches Err(ErrorHandling::YamlScan),
{
    let text = match contents {
        Some(t) => t,
        None => {
            return Err(ErrorHandling::IoOperation { path: path.to_owned() });
        },
    };
    let docs = match load_yaml(text.as_str()) {
        Ok(ds) => ds,
        Err(_) => {
            return Err(ErrorHandling::YamlScan);
        },
    };
    if docs.len() == 0 {
        return Ok(None);
    }
    let is_mapping = match &docs[0] {
        YamlDocument::Mapping(_) => true,
        YamlDocument::Other => false,
    };
    if !is_mapping {
        return Ok(None);
    }
    Ok(Some(config_from_documents(&docs)))
}

} // verus!

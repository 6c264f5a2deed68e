//! A plain-value model of a parsed declarative document: a tree of nested
//! mappings, sequences and scalars, as a configuration file yields it.

use vstd::prelude::*;

verus! {

/// One node of a parsed document.
///
/// Mapping keys are kept as full nodes: a document may use a non-string key,
/// and such an entry is simply never found by a string lookup. A scalar that
/// the configuration schema can never accept (a fractional number, an integer
/// outside the signed 64-bit range, a tagged value) is kept as `Other`, so
/// that looking it up still reports a present, wrongly-typed value.
#[derive(Debug)]
pub enum Yaml {
    Null,
    Bool(bool),
    Int(i64),
    Str(String),
    List(Vec<Yaml>),
    Mapping(Vec<(Yaml, Yaml)>),
    Other,
}

/// The value under the first entry of `entries` whose key is the string `key`,
/// if any.
pub open spec fn spec_lookup(entries: Seq<(Yaml, Yaml)>, key: Seq<char>) -> Option<Yaml>
    decreases entries.len(),
{
    if entries.len() == 0 {
        None
    } else {
        match entries[0].0 {
            Yaml::Str(s) => if s@ == key {
                Some(entries[0].1)
            } else {
                spec_lookup(entries.drop_first(), key)
            },
            _ => spec_lookup(entries.drop_first(), key),
        }
    }
}

/// First-match string lookup in a mapping's entry list.
pub fn lookup<'a>(entries: &'a Vec<(Yaml, Yaml)>, key: &String) -> (r: Option<&'a Yaml>)
    ensures
        match r {
            Some(v) => spec_lookup(entries@, key@) == Some(*v),
            None => spec_lookup(entries@, key@) is None,
        },
{
    let n = entries.len();
    let mut i: usize = 0;
    proof {
        assert(entries@.skip(0) =~= entries@);
    }
    while i < n
        invariant
            i <= n,
            n == entries@.len(),
            spec_lookup(entries@, key@) == spec_lookup(entries@.skip(i as int), key@),
        decreases n - i,
    {
        proof {
            assert(entries@.skip(i as int).drop_first() =~= entries@.skip(i as int + 1));
            assert(entries@.skip(i as int)[0] == entries@[i as int]);
        }
        match &entries[i].0 {
            Yaml::Str(s) => {
                if *s == *key {
                    proof {
                        assert(spec_lookup(entries@.skip(i as int), key@)
                            == Some(entries@[i as int].1));
                    }
                    return Some(&entries[i].1);
                }
            },
            _ => {},
        }
        i = i + 1;
    }
    proof {
        assert(entries@.skip(n as int) =~= Seq::<(Yaml, Yaml)>::empty());
    }
    None
}

#[verifier::external_type_specification]
#[verifier::external_body]
pub struct ExValue(serde_yaml::Value);

/// The document tree that parsing a given text yields, if the text is a
/// well-formed document. Parsing depends on the text alone, so the result
/// bears a name; nothing further is assumed of it.
pub uninterp spec fn yaml_document(s: Seq<char>) -> Option<Yaml>;

/// Relies on serde_yaml: converts its parsed tree into the library's, one arm
/// per variant, moving the fields. A number outside the signed 64-bit
/// integers and a tagged value become `Yaml::Other`. This is the conversion
/// half of [`parse_document`], which alone calls it; it promises nothing,
/// and nothing is proved from it.
#[verifier::external_body]
fn yaml_of_value(v: serde_yaml::Value) -> Yaml {
    match v {
        serde_yaml::Value::Null => Yaml::Null,
        serde_yaml::Value::Bool(b) => Yaml::Bool(b),
        serde_yaml::Value::Number(n) => match n.as_i64() {
            Some(i) => Yaml::Int(i),
            None => Yaml::Other,
        },
        serde_yaml::Value::String(s) => Yaml::Str(s),
        serde_yaml::Value::Sequence(s) => Yaml::List(s.into_iter().map(yaml_of_value).collect()),
        serde_yaml::Value::Mapping(m) => Yaml::Mapping(
            m.into_iter().map(|(k, w)| (yaml_of_value(k), yaml_of_value(w))).collect(),
        ),
        serde_yaml::Value::Tagged(_) => Yaml::Other,
    }
}

/// Relies on serde_yaml::from_str: it parses the text against document
/// syntax, returning a tree on success and a diagnostic on failure, and what
/// it returns depends on the text alone.
#[verifier::external_body]
pub(crate) fn parse_document(text: &str) -> (r: Result<Yaml, String>)
    ensures
        match r {
            Ok(d) => yaml_document(text@) == Some(d),
            Err(_) => yaml_document(text@) is None,
        },
{
    match serde_yaml::from_str::<serde_yaml::Value>(text) {
        Ok(v) => Ok(yaml_of_value(v)),
        Err(e) => Err(e.to_string()),
    }
}

} // verus!

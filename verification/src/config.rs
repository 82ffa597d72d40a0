//! Configuration entries and the output file name derived from an entry's
//! title.

use vstd::prelude::*;
use vstd::string::StrSliceExecFns;
use vstd::string::StringExecFns;

use crate::json::Json;
use crate::json::json_lookup;
use crate::json::json_parse;
use crate::json::obj_get;
use crate::json::parse_json_text;

verus! {

/// One download target: a title (which names the output file) and the URL to
/// fetch.
#[derive(Debug)]
pub struct Config {
    pub title: String,
    pub url: String,
}

/// The errors a run can raise: file-system trouble, malformed or mis-shaped
/// JSON, or a failed HTTP transfer. Each variant carries a human-readable
/// message.
#[derive(Debug)]
pub enum ConfigError {
    Io(String),
    Json(String),
    Reqwest(String),
}

/// The `(title, url)` pair a JSON value describes: the value must be an
/// object whose `title` and `url` fields are both strings.
pub open spec fn entry_of(j: Json) -> Option<(Seq<char>, Seq<char>)> {
    if j is Obj {
        let t = json_lookup(j->Obj_0@, "title"@);
        let u = json_lookup(j->Obj_0@, "url"@);
        if t is Some && t->Some_0 is Str && u is Some && u->Some_0 is Str {
            Some((t->Some_0->Str_0@, u->Some_0->Str_0@))
        } else {
            None
        }
    } else {
        None
    }
}

/// The `(title, url)` pairs a JSON document describes: the document must be
/// an array, and every element must describe an entry.
pub open spec fn configs_of(j: Json) -> Option<Seq<(Seq<char>, Seq<char>)>> {
    if j is Arr {
        let items = j->Arr_0;
        if forall|i: int| 0 <= i < items@.len() ==> #[trigger] entry_of(items@[i]) is Some {
            Some(Seq::new(items@.len(), |i: int| entry_of(items@[i])->Some_0))
        } else {
            None
        }
    } else {
        None
    }
}

/// The parsed entries carry exactly the given `(title, url)` pairs, in order.
pub open spec fn configs_match(cs: Seq<Config>, entries: Seq<(Seq<char>, Seq<char>)>) -> bool {
    &&& cs.len() == entries.len()
    &&& forall|i: int|
        0 <= i < entries.len() ==> (#[trigger] cs[i]).title@ == entries[i].0 && cs[i].url@
            == entries[i].1
}

/// Reads one entry out of a JSON value, insisting on an object with string
/// `title` and `url` fields.
pub fn entry_from_json(j: &Json) -> (r: Result<Config, String>)
    ensures
        r is Ok <==> entry_of(*j) is Some,
        r is Ok ==> (r->Ok_0.title@, r->Ok_0.url@) == entry_of(*j)->Some_0,
{
    match j {
        Json::Obj(fields) => {
            let title_key: String = "title".to_owned();
            let url_key: String = "url".to_owned();
            match (obj_get(fields, &title_key), obj_get(fields, &url_key)) {
                (Some(Json::Str(t)), Some(Json::Str(u))) => Ok(
                    Config { title: t.clone(), url: u.clone() },
                ),
                (Some(Json::Str(_)), _) => Err("missing or non-string field: url".to_owned()),
                _ => Err("missing or non-string field: title".to_owned()),
            }
        },
        _ => Err("expected a JSON object".to_owned()),
    }
}

/// Reads the whole entry list out of a JSON document, insisting on an array
/// of entry objects. The result has one entry per array element, in the
/// array's order.
pub fn configs_from_json(j: &Json) -> (r: Result<Vec<Config>, String>)
    ensures
        r is Ok <==> configs_of(*j) is Some,
        r is Ok ==> configs_match(r->Ok_0@, configs_of(*j)->Some_0),
{
    match j {
        Json::Arr(items) => {
            let n = items.len();
            let mut out: Vec<Config> = Vec::new();
            let mut i: usize = 0;
            while i < n
                invariant
                    *j is Arr,
                    (*j)->Arr_0 == *items,
                    n == items@.len(),
                    i <= n,
                    out@.len() == i,
                    forall|k: int| 0 <= k < i ==> #[trigger] entry_of(items@[k]) is Some,
                    forall|k: int|
                        0 <= k < i ==> (#[trigger] out@[k]).title@ == entry_of(
                            items@[k],
                        )->Some_0.0 && out@[k].url@ == entry_of(items@[k])->Some_0.1,
                decreases n - i,
            {
                match entry_from_json(&items[i]) {
                    Ok(c) => {
                        out.push(c);
                    },
                    Err(m) => {
                        proof {
                            assert(((*j)->Arr_0)@ == items@);
                            assert(entry_of(((*j)->Arr_0)@[i as int]) !is Some);
                            assert(configs_of(*j) is None);
                        }
                        return Err(m);
                    },
                }
                i += 1;
            }
            Ok(out)
        },
        _ => Err("expected a JSON array".to_owned()),
    }
}

/// Parses a configuration text: a JSON array of objects, each with string
/// `title` and `url` fields. Returns the entries in the array's order;
/// returns `ConfigError::Json` exactly when the text is not valid JSON or
/// does not have that shape.
pub fn parse_configs(text: &str) -> (r: Result<Vec<Config>, ConfigError>)
    ensures
        r is Ok <==> (json_parse(text@) is Some && configs_of(json_parse(text@)->Some_0) is Some),
        r is Ok ==> configs_match(r->Ok_0@, configs_of(json_parse(text@)->Some_0)->Some_0),
        r is Err ==> r->Err_0 is Json,
{
    match parse_json_text(text) {
        Ok(doc) => match configs_from_json(&doc) {
            Ok(cs) => Ok(cs),
            Err(m) => Err(ConfigError::Json(m)),
        },
        Err(m) => Err(ConfigError::Json(m)),
    }
}

/// The title with every space character replaced by an underscore; no other
/// character changes.
pub open spec fn spaces_to_underscores(t: Seq<char>) -> Seq<char> {
    Seq::new(t.len(), |i: int| if t[i] == ' ' { '_' } else { t[i] })
}

/// The output file name for a title: spaces become underscores, then `.txt`
/// is appended.
pub open spec fn file_name_spec(t: Seq<char>) -> Seq<char> {
    spaces_to_underscores(t) + ".txt"@
}

/// Relies on std's `String::push`: it appends the given character to the end
/// of the string.
#[verifier::external_body]
fn push_char(s: &mut String, c: char)
    ensures
        final(s)@ == old(s)@.push(c),
{
    s.push(c);
}

/// Derives the name of the file a title's download is saved under:
/// `<title with spaces replaced by underscores>.txt`.
pub fn output_file_name(title: &str) -> (r: String)
    ensures
        r@ == file_name_spec(title@),
{
    let n = title.unicode_len();
    let mut s = String::new();
    let mut i: usize = 0;
    while i < n
        invariant
            n == title@.len(),
            i <= n,
            s@ == spaces_to_underscores(title@).take(i as int),
        decreases n - i,
    {
        let c = title.get_char(i);
        if c == ' ' {
            push_char(&mut s, '_');
        } else {
            push_char(&mut s, c);
        }
        proof {
            assert(s@ =~= spaces_to_underscores(title@).take(i + 1));
        }
        i += 1;
    }
    proof {
        assert(spaces_to_underscores(title@).take(n as int) =~= spaces_to_underscores(title@));
    }
    s.append(".txt");
    s
}

} // verus!

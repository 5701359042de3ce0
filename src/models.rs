use vstd::prelude::*;
use crate::json::{json_error_text, json_model_names, json_parses, opt_texts, parse_reply_fields};
use crate::policy::{allowed_model, is_allowed_model, MODEL_PREFIX_LARGE, MODEL_PREFIX_SMALL};
use crate::history::string_views;

verus! {

/// What precedes the parser's message when a model list does not parse.
pub const ERR_MODEL_LIST: &'static str = "JSONパース失敗: ";

/// The names in `entries` that the allow-list permits, in order.
pub open spec fn permitted_names(entries: Seq<Option<Seq<char>>>) -> Seq<Seq<char>>
    decreases entries.len(),
{
    if entries.len() == 0 {
        Seq::empty()
    } else {
        let p = permitted_names(entries.drop_last());
        match entries.last() {
            Some(n) => if allowed_model(n) {
                p.push(n)
            } else {
                p
            },
            None => p,
        }
    }
}

/// The list offered when the backend's reply names no models.
pub open spec fn default_models() -> Seq<Seq<char>> {
    seq![MODEL_PREFIX_LARGE@, MODEL_PREFIX_SMALL@]
}

/// The models a tags reply offers: the permitted names it lists, or the
/// default list when it has no model array; when it does not parse, the
/// parser's message after the classified one.
pub open spec fn offered_models(body: Seq<u8>) -> Result<Seq<Seq<char>>, Seq<char>> {
    if !json_parses(body) {
        Err(ERR_MODEL_LIST@ + json_error_text(body))
    } else {
        match json_model_names(body) {
            Some(entries) => Ok(permitted_names(entries)),
            None => Ok(default_models()),
        }
    }
}

/// A model list result as values.
pub open spec fn names_result(r: Result<Vec<String>, String>) -> Result<Seq<Seq<char>>, Seq<char>> {
    match r {
        Ok(v) => Ok(string_views(v@)),
        Err(e) => Err(e@),
    }
}

/// Keeps the names that the allow-list permits; entries without a name are
/// passed over.
pub fn permitted_models(entries: &Vec<Option<String>>) -> (r: Vec<String>)
    ensures
        string_views(r@) == permitted_names(opt_texts(entries@)),
{
    let mut r: Vec<String> = Vec::new();
    let mut i: usize = 0;
    while i < entries.len()
        invariant
            i <= entries@.len(),
            string_views(r@) == permitted_names(opt_texts(entries@.subrange(0, i as int))),
        decreases entries@.len() - i,
    {
        proof {
            let sub = opt_texts(entries@.subrange(0, i + 1));
            assert(sub.drop_last() =~= opt_texts(entries@.subrange(0, i as int)));
        }
        match &entries[i] {
            Some(n) => {
                if is_allowed_model(n.as_str()) {
                    let ghost before = r@;
                    r.push(n.clone());
                    assert(string_views(r@) =~= string_views(before).push(n@));
                }
            },
            None => {},
        }
        i = i + 1;
    }
    assert(entries@.subrange(0, entries@.len() as int) =~= entries@);
    r
}

/// Reads the backend's list of installed models (the body of its tags reply)
/// and returns those the allow-list permits.
pub fn available_models(body: &[u8]) -> (r: Result<Vec<String>, String>)
    ensures
        names_result(r) == offered_models(body@),
{
    let fields = parse_reply_fields(body);
    if !fields.parsed {
        let mut m = String::from_str(ERR_MODEL_LIST);
        match fields.error {
            Some(e) => m.append(e.as_str()),
            None => {},
        }
        return Err(m);
    }
    match fields.model_names {
        Some(entries) => Ok(permitted_models(&entries)),
        None => {
            let mut v: Vec<String> = Vec::new();
            v.push(String::from_str(MODEL_PREFIX_LARGE));
            v.push(String::from_str(MODEL_PREFIX_SMALL));
            assert(string_views(v@) =~= default_models());
            Ok(v)
        },
    }
}

} // verus!

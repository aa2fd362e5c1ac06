use vstd::prelude::*;
use vstd::string::StringExecFns;

use crate::record::Error;

verus! {

/// The result of a successful registry search: the identifier (DOI) of
/// the first matching work.
#[derive(Debug, PartialEq, Eq)]
pub struct CrossRefWork {
    pub doi: String,
}

/// The plain parts of a search response that the search decision reads:
/// the top-level status, the message type, and per item the DOI, each
/// `None` where the response does not hold such a text.
pub struct SearchEnvelope {
    pub status: Option<String>,
    pub message_type: Option<String>,
    pub dois: Option<Vec<Option<String>>>,
}

/// What a search owes for an envelope: a missing or non-text status is a
/// shape error; a status other than `ok` is a registry-reported failure,
/// whatever the payload holds; a message type other than `work-list`, a
/// missing item list or a first item without DOI is a shape error; an
/// empty item list means no match; otherwise the first item's DOI is the
/// result, and the items after it are ignored.
pub open spec fn interpret_spec(
    status: Option<Seq<char>>,
    message_type: Option<Seq<char>>,
    dois: Option<Seq<Option<Seq<char>>>>,
) -> Result<Seq<char>, Error> {
    match status {
        None => Err(Error::RegistryParseError),
        Some(st) => if st != "ok"@ {
            Err(Error::RegistryStatusError)
        } else {
            match message_type {
                None => Err(Error::RegistryParseError),
                Some(mt) => if mt != "work-list"@ {
                    Err(Error::RegistryParseError)
                } else {
                    match dois {
                        None => Err(Error::RegistryParseError),
                        Some(ds) => if ds.len() == 0 {
                            Err(Error::NotFoundError)
                        } else {
                            match ds[0] {
                                None => Err(Error::RegistryParseError),
                                Some(d) => Ok(d),
                            }
                        },
                    }
                },
            }
        },
    }
}

/// The search decision on the plain parts of a response, exactly as
/// `interpret_spec` states it.
pub fn interpret_search(env: &SearchEnvelope) -> (r: Result<CrossRefWork, Error>)
    ensures
        match interpret_spec(env.status.deep_view(), env.message_type.deep_view(), env.dois.deep_view()) {
            Ok(d) => r matches Ok(w) && w.doi@ == d,
            Err(e) => r == Err::<CrossRefWork, Error>(e),
        },
{
    let st = match &env.status {
        None => {
            return Err(Error::RegistryParseError);
        },
        Some(st) => st,
    };
    let ok_text = "ok".to_owned();
    if !(*st == ok_text) {
        return Err(Error::RegistryStatusError);
    }
    let mt = match &env.message_type {
        None => {
            return Err(Error::RegistryParseError);
        },
        Some(mt) => mt,
    };
    let work_list_text = "work-list".to_owned();
    if !(*mt == work_list_text) {
        return Err(Error::RegistryParseError);
    }
    let ds = match &env.dois {
        None => {
            return Err(Error::RegistryParseError);
        },
        Some(ds) => ds,
    };
    if ds.len() == 0 {
        return Err(Error::NotFoundError);
    }
    proof {
        assert(env.dois.deep_view()->Some_0[0] == ds@[0].deep_view());
    }
    match &ds[0] {
        None => Err(Error::RegistryParseError),
        Some(d) => Ok(CrossRefWork { doi: d.clone() }),
    }
}

/// The `status` text of a search response body, when the body is JSON
/// holding one; what `extract_envelope` yields for the body.
pub uninterp spec fn status_of(body: Seq<char>) -> Option<Seq<char>>;

/// The `message-type` text of a search response body, when the body is
/// JSON holding one; what `extract_envelope` yields for the body.
pub uninterp spec fn message_type_of(body: Seq<char>) -> Option<Seq<char>>;

/// The per-item `DOI` texts of a search response body's item list, when
/// the body is JSON holding one; what `extract_envelope` yields for the
/// body.
pub uninterp spec fn dois_of(body: Seq<char>) -> Option<Seq<Option<Seq<char>>>>;

/// Relies on serde_json — `from_str`, `Value::get`, `Value::as_str`,
/// `Value::as_array` — to read the envelope's plain parts: the top-level
/// `status` and `message-type` texts, and per item of `message.items`
/// its `DOI` text, each part `None` where the body holds no such text.
/// All three parts depend on the body text alone.
#[verifier::external_body]
fn extract_envelope(body: &str) -> (r: SearchEnvelope)
    ensures
        r.status.deep_view() == status_of(body@),
        r.message_type.deep_view() == message_type_of(body@),
        r.dois.deep_view() == dois_of(body@),
{
    let v: Option<serde_json::Value> = serde_json::from_str(body).ok();
    let text = |f: &serde_json::Value| f.as_str().map(str::to_owned);
    SearchEnvelope {
        status: v.as_ref().and_then(|v| v.get("status")).and_then(text),
        message_type: v.as_ref().and_then(|v| v.get("message-type")).and_then(text),
        dois: v
            .as_ref()
            .and_then(|v| v.get("message"))
            .and_then(|m| m.get("items"))
            .and_then(|i| i.as_array())
            .map(|a| a.iter().map(|w| w.get("DOI").and_then(text)).collect()),
    }
}

/// The search decision for a raw response body: the envelope parts are
/// read through serde_json under their names, and what came back is
/// decided exactly as `interpret_spec` states.
pub fn parse_search_body(body: &str) -> (r: Result<CrossRefWork, Error>)
    ensures
        match interpret_spec(status_of(body@), message_type_of(body@), dois_of(body@)) {
            Ok(d) => r matches Ok(w) && w.doi@ == d,
            Err(e) => r == Err::<CrossRefWork, Error>(e),
        },
{
    let env = extract_envelope(body);
    interpret_search(&env)
}

/// The URL a citation document is fetched from: the registry's works
/// endpoint, a slash, the identifier, and the fixed suffix selecting
/// BibTeX output.
pub fn bibtex_url(doi: &str) -> (r: String)
    ensures
        r@ == "https://api.crossref.org/works/"@ + doi@ + "/transform/application/x-bibtex"@,
{
    let mut url = "https://api.crossref.org/works/".to_owned();
    url.append(doi);
    url.append("/transform/application/x-bibtex");
    url
}

/// The query parameters of a registry search: the title and the author
/// as two separate parameters, in this order.
pub fn search_query_pairs(author: &str, title: &str) -> (r: Vec<(String, String)>)
    ensures
        r@.len() == 2,
        r@[0].0@ == "query.title"@,
        r@[0].1@ == title@,
        r@[1].0@ == "query.author"@,
        r@[1].1@ == author@,
{
    let mut v: Vec<(String, String)> = Vec::new();
    v.push(("query.title".to_owned(), title.to_owned()));
    v.push(("query.author".to_owned(), author.to_owned()));
    v
}

} // verus!


//! Requests as plain values: what is to be sent, decided here and sent
//! elsewhere.

use crate::text::{signed_decimal, signed_decimal_string};
use vstd::prelude::*;
use vstd::string::StringExecFns;

verus! {

/// The request methods that the flow uses.
#[derive(Debug, Clone, Copy, PartialEq, Eq, Structural)]
pub enum HttpMethod {
    Get,
    Post,
}

/// A request to send: where, how, and with which headers and form fields,
/// each list in the order in which it is to be written.
#[derive(Debug, PartialEq, Eq)]
pub struct HttpRequest {
    pub method: HttpMethod,
    pub url: String,
    pub headers: Vec<(String, String)>,
    pub form: Vec<(String, String)>,
}

/// The mathematical content of an [`HttpRequest`].
pub struct RequestView {
    pub method: HttpMethod,
    pub url: Seq<char>,
    pub headers: Seq<(Seq<char>, Seq<char>)>,
    pub form: Seq<(Seq<char>, Seq<char>)>,
}

impl View for HttpRequest {
    type V = RequestView;

    open spec fn view(&self) -> RequestView {
        RequestView {
            method: self.method,
            url: self.url@,
            headers: self.headers.deep_view(),
            form: self.form.deep_view(),
        }
    }
}

impl Clone for HttpRequest {
    fn clone(&self) -> (r: HttpRequest)
        ensures
            r@ == self@,
    {
        HttpRequest {
            method: self.method,
            url: self.url.clone(),
            headers: clone_pairs(&self.headers),
            form: clone_pairs(&self.form),
        }
    }
}

/// A copy of a list of text pairs.
pub fn clone_pairs(pairs: &Vec<(String, String)>) -> (r: Vec<(String, String)>)
    ensures
        r.deep_view() == pairs.deep_view(),
{
    let mut r: Vec<(String, String)> = Vec::new();
    let mut i: usize = 0;
    while i < pairs.len()
        invariant
            i <= pairs@.len(),
            r@.len() == i,
            forall|j: int| 0 <= j < i ==> r@[j].deep_view() == pairs@[j].deep_view(),
        decreases pairs@.len() - i,
    {
        r.push((pairs[i].0.clone(), pairs[i].1.clone()));
        i += 1;
    }
    r
}

/// One query parameter as it is written: the key, `=`, the value in
/// decimal.
pub open spec fn pair_text(param: (Seq<char>, i64)) -> Seq<char> {
    param.0 + seq!['='] + signed_decimal(param.1 as int)
}

/// The query string of a list of parameters: nothing for the empty list,
/// else `?` and the parameters in the order given, with `&` between them.
pub open spec fn query_text(params: Seq<(Seq<char>, i64)>) -> Seq<char>
    decreases params.len(),
{
    if params.len() == 0 {
        Seq::empty()
    } else {
        query_text(params.drop_last()) + (if params.len() == 1 {
            seq!['?']
        } else {
            seq!['&']
        }) + pair_text(params.last())
    }
}

/// Writes the query string of `params`, in the order given.
pub fn query_string(params: &Vec<(String, i64)>) -> (r: String)
    ensures
        r@ == query_text(params.deep_view()),
{
    let ghost all = params.deep_view();
    let mut r = String::new();
    let mut i: usize = 0;
    proof {
        reveal_strlit("?");
        reveal_strlit("&");
        reveal_strlit("=");
    }
    while i < params.len()
        invariant
            i <= params@.len(),
            all == params.deep_view(),
            all.len() == params@.len(),
            r@ == query_text(all.take(i as int)),
            "?"@ == seq!['?'],
            "&"@ == seq!['&'],
            "="@ == seq!['='],
        decreases params@.len() - i,
    {
        let ghost before = r@;
        if i == 0 {
            r.append("?");
        } else {
            r.append("&");
        }
        r.append(params[i].0.as_str());
        r.append("=");
        let value = signed_decimal_string(params[i].1);
        r.append(value.as_str());
        proof {
            let upto = all.take(i as int + 1);
            assert(upto.drop_last() =~= all.take(i as int));
            assert(r@ =~= before + (if i == 0 {
                seq!['?']
            } else {
                seq!['&']
            }) + pair_text(upto.last()));
        }
        i += 1;
    }
    proof {
        assert(all.take(i as int) =~= all);
    }
    r
}

} // verus!

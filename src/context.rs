use vstd::prelude::*;

verus! {

/// The read-only request context as plain values: each list holds
/// `(name, value)` pairs in the order they were added.
pub struct ContextView {
    pub headers: Seq<(Seq<char>, Seq<char>)>,
    pub url_params: Seq<(Seq<char>, Seq<char>)>,
}

/// The value bound to `name`; where a name was bound more than once, the
/// binding added last wins.
pub open spec fn lookup(entries: Seq<(Seq<char>, Seq<char>)>, name: Seq<char>) -> Option<Seq<char>>
    decreases entries.len(),
{
    if entries.len() == 0 {
        None
    } else if entries.last().0 == name {
        Some(entries.last().1)
    } else {
        lookup(entries.drop_last(), name)
    }
}

/// A looked-up value, or the empty string where the name is absent.
pub open spec fn or_empty(v: Option<Seq<char>>) -> Seq<char> {
    match v {
        Some(s) => s,
        None => Seq::empty(),
    }
}

/// A list of `(name, value)` string pairs as character sequences.
pub open spec fn pairs_view(v: Seq<(String, String)>) -> Seq<(Seq<char>, Seq<char>)> {
    v.map_values(|p: (String, String)| (p.0@, p.1@))
}

impl ContextView {
    pub open spec fn header(self, name: Seq<char>) -> Option<Seq<char>> {
        lookup(self.headers, name)
    }

    pub open spec fn url_param(self, name: Seq<char>) -> Option<Seq<char>> {
        lookup(self.url_params, name)
    }
}

/// Headers and URL parameters of the request being served.
pub struct RequestContext {
    headers: Vec<(String, String)>,
    url_params: Vec<(String, String)>,
}

impl View for RequestContext {
    type V = ContextView;

    closed spec fn view(&self) -> ContextView {
        ContextView { headers: pairs_view(self.headers@), url_params: pairs_view(self.url_params@) }
    }
}

fn find_value(entries: &Vec<(String, String)>, name: &str) -> (r: Option<String>)
    ensures
        r.deep_view() == lookup(pairs_view(entries@), name@),
{
    let ghost all = pairs_view(entries@);
    let key = name.to_owned();
    let mut found: Option<String> = None;
    let mut i: usize = 0;
    while i < entries.len()
        invariant
            i <= entries@.len(),
            all == pairs_view(entries@),
            key@ == name@,
            found.deep_view() == lookup(all.take(i as int), name@),
        decreases entries@.len() - i,
    {
        assert(all.take(i + 1).drop_last() =~= all.take(i as int));
        if entries[i].0 == key {
            found = Some(entries[i].1.clone());
        }
        i = i + 1;
    }
    assert(all.take(i as int) =~= all);
    found
}

impl RequestContext {
    /// A context with no headers and no URL parameters.
    pub fn new() -> (r: RequestContext)
        ensures
            r@.headers == Seq::<(Seq<char>, Seq<char>)>::empty(),
            r@.url_params == Seq::<(Seq<char>, Seq<char>)>::empty(),
    {
        RequestContext { headers: Vec::new(), url_params: Vec::new() }
    }

    /// The same context with the header `name` bound to `value`.
    pub fn with_header(self, name: &str, value: &str) -> (r: RequestContext)
        ensures
            r@.headers == self@.headers.push((name@, value@)),
            r@.url_params == self@.url_params,
    {
        let mut headers = self.headers;
        headers.push((name.to_owned(), value.to_owned()));
        proof {
            assert(pairs_view(headers@) =~= pairs_view(self.headers@).push((name@, value@)));
        }
        RequestContext { headers, url_params: self.url_params }
    }

    /// The same context with the URL parameter `name` bound to `value`.
    pub fn with_url_param(self, name: &str, value: &str) -> (r: RequestContext)
        ensures
            r@.url_params == self@.url_params.push((name@, value@)),
            r@.headers == self@.headers,
    {
        let mut url_params = self.url_params;
        url_params.push((name.to_owned(), value.to_owned()));
        proof {
            assert(pairs_view(url_params@) =~= pairs_view(self.url_params@).push((name@, value@)));
        }
        RequestContext { headers: self.headers, url_params }
    }

    /// The value of the header `name`, if the request carries one.
    pub fn header(&self, name: &str) -> (r: Option<String>)
        ensures
            r.deep_view() == self@.header(name@),
    {
        find_value(&self.headers, name)
    }

    /// The value of the URL parameter `name`, if the request carries one.
    pub fn url_param(&self, name: &str) -> (r: Option<String>)
        ensures
            r.deep_view() == self@.url_param(name@),
    {
        find_value(&self.url_params, name)
    }
}

} // verus!

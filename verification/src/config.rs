//! App-key parsing and ingestion endpoint selection.
use std::time::Duration;
use vstd::prelude::*;
use vstd::string::*;

use crate::text::{chars_of, same_chars};

verus! {

/// Optional Aptabase client configuration.
#[derive(Debug)]
pub struct InitOptions {
    /// Base URL for an `A-SH-*` self-hosted app key.
    pub host: Option<String>,
    /// Interval used by periodic flushing.
    pub flush_interval: Option<Duration>,
    /// Value reported as `engineName` in event system properties.
    pub engine_name: Option<String>,
    /// Value reported as `engineVersion` in event system properties.
    pub engine_version: Option<String>,
}

/// A copy of an optional string.
pub fn copy_opt_string(s: &Option<String>) -> (r: Option<String>)
    ensures
        r == *s,
{
    match s {
        Some(t) => Some(t.clone()),
        None => None,
    }
}

impl Clone for InitOptions {
    fn clone(&self) -> (r: Self)
        ensures
            r == *self,
    {
        InitOptions {
            host: copy_opt_string(&self.host),
            flush_interval: self.flush_interval,
            engine_name: copy_opt_string(&self.engine_name),
            engine_version: copy_opt_string(&self.engine_version),
        }
    }
}

impl Default for InitOptions {
    fn default() -> (r: Self)
        ensures
            r.host is None,
            r.flush_interval is None,
            r.engine_name is None,
            r.engine_version is None,
    {
        InitOptions { host: None, flush_interval: None, engine_name: None, engine_version: None }
    }
}

/// The delivery configuration derived from an app key and options.
#[derive(Debug)]
pub struct Config {
    /// The app key; empty when tracking is disabled.
    pub app_key: String,
    /// The serialized ingestion URL.
    pub ingest_api_url: String,
    /// Interval used by periodic flushing.
    pub flush_interval: Duration,
}

/// The regions an app key can name.
#[derive(Debug, Clone, Copy, PartialEq, Eq)]
pub enum Region {
    Us,
    Eu,
    Dev,
    SelfHosted,
}

/// The view of an optional string.
pub open spec fn opt_view(s: Option<String>) -> Option<Seq<char>> {
    match s {
        Some(t) => Some(t@),
        None => None,
    }
}

/// The fields of `s` between `-` separators, as `str::split('-')` yields them.
pub open spec fn split_fields(s: Seq<char>) -> Seq<Seq<char>>
    decreases s.len(),
{
    if s.len() == 0 {
        seq![Seq::<char>::empty()]
    } else {
        let prev = split_fields(s.drop_last());
        if s.last() == '-' {
            prev.push(Seq::<char>::empty())
        } else {
            prev.update(prev.len() - 1, prev.last().push(s.last()))
        }
    }
}

/// The region that a region code names.
pub open spec fn region_of(code: Seq<char>) -> Option<Region> {
    if code == seq!['U', 'S'] {
        Some(Region::Us)
    } else if code == seq!['E', 'U'] {
        Some(Region::Eu)
    } else if code == seq!['D', 'E', 'V'] {
        Some(Region::Dev)
    } else if code == seq!['S', 'H'] {
        Some(Region::SelfHosted)
    } else {
        None
    }
}

/// The region of a well-formed app key `A-<region>-<id>` with a non-empty id.
pub open spec fn key_region(key: Seq<char>) -> Option<Region> {
    let parts = split_fields(key);
    if parts.len() != 3 || parts[0] != seq!['A'] || parts[2].len() == 0 {
        None
    } else {
        region_of(parts[1])
    }
}

pub open spec fn us_region_url() -> Seq<char> {
    "https://us.aptabase.com"@
}

pub open spec fn eu_region_url() -> Seq<char> {
    "https://eu.aptabase.com"@
}

pub open spec fn local_url() -> Seq<char> {
    "http://localhost:3000"@
}

pub open spec fn events_path() -> Seq<char> {
    "/api/v0/events"@
}

/// The base URL of the service that an app key points at, given the self-hosted `host`.
pub open spec fn base_url(key: Seq<char>, host: Option<Seq<char>>) -> Option<Seq<char>> {
    match key_region(key) {
        Some(Region::Us) => Some(us_region_url()),
        Some(Region::Eu) => Some(eu_region_url()),
        Some(Region::Dev) => Some(local_url()),
        Some(Region::SelfHosted) => host,
        None => None,
    }
}

/// `s` without its trailing `/` characters.
pub open spec fn trim_trailing_slashes(s: Seq<char>) -> Seq<char>
    decreases s.len(),
{
    if s.len() > 0 && s.last() == '/' {
        trim_trailing_slashes(s.drop_last())
    } else {
        s
    }
}

/// The text of the ingestion URL for a base URL.
pub open spec fn ingest_url_text(base: Seq<char>) -> Seq<char> {
    trim_trailing_slashes(base) + events_path()
}

/// The serialized ingestion URL for an app key, when the key is valid and the URL parses.
pub open spec fn ingest_endpoint(key: Seq<char>, host: Option<Seq<char>>) -> Option<Seq<char>> {
    match base_url(key, host) {
        Some(base) => parsed_url(ingest_url_text(base)),
        None => None,
    }
}

/// The URL that `Url::parse` gives for `text`, serialized, or `None` where it refuses the text.
pub uninterp spec fn parsed_url(text: Seq<char>) -> Option<Seq<char>>;

/// Calls `url::Url::parse` (which `reqwest::Url` re-exports) and serializes the result.
/// Trusted: the result is `parsed_url` of the text; nothing more is claimed of it.
#[verifier::external_body]
fn parse_url(text: &str) -> (r: Option<String>)
    ensures
        opt_view(r) == parsed_url(text@),
{
    reqwest::Url::parse(text).ok().map(String::from)
}

/// The field views of `parts`.
pub open spec fn field_views(parts: Seq<Vec<char>>) -> Seq<Seq<char>> {
    parts.map_values(|p: Vec<char>| p@)
}

pub proof fn lemma_split_fields_nonempty(s: Seq<char>)
    ensures
        split_fields(s).len() >= 1,
    decreases s.len(),
{
    if s.len() > 0 {
        lemma_split_fields_nonempty(s.drop_last());
    }
}

/// A `-` ends the last field and starts an empty one.
pub proof fn lemma_split_dash(s: Seq<char>)
    ensures
        split_fields(s.push('-')) == split_fields(s).push(Seq::<char>::empty()),
{
    assert(s.push('-').drop_last() =~= s);
}

/// Text without `-` extends the last field.
pub proof fn lemma_split_plain(s: Seq<char>, t: Seq<char>)
    requires
        forall|i: int| 0 <= i < t.len() ==> t[i] != '-',
    ensures
        split_fields(s + t) == split_fields(s).update(
            split_fields(s).len() - 1,
            split_fields(s).last() + t,
        ),
    decreases t.len(),
{
    lemma_split_fields_nonempty(s);
    let f = split_fields(s);
    if t.len() == 0 {
        assert(s + t =~= s);
        assert(f.last() + t =~= f.last());
        assert(f.update(f.len() - 1, f.last() + t) =~= f);
    } else {
        let t0 = t.drop_last();
        lemma_split_plain(s, t0);
        assert((s + t).drop_last() =~= s + t0);
        assert((s + t).last() == t.last());
        assert((f.last() + t0).push(t.last()) =~= f.last() + t);
        let g = split_fields(s + t0);
        assert(g.len() == f.len());
        assert(g.last() == f.last() + t0);
        assert(g.update(g.len() - 1, g.last().push(t.last())) =~= f.update(
            f.len() - 1,
            f.last() + t,
        ));
    }
}

/// The text of the app key `A-<code>-<id>`.
pub open spec fn app_key_text(code: Seq<char>, id: Seq<char>) -> Seq<char> {
    seq!['A', '-'] + code + seq!['-'] + id
}

/// Whether a text holds no `-`.
pub open spec fn dash_free(t: Seq<char>) -> bool {
    forall|i: int| 0 <= i < t.len() ==> t[i] != '-'
}

/// The key `A-<code>-<id>` splits into `A`, the code and the id.
pub proof fn lemma_key_fields(code: Seq<char>, id: Seq<char>)
    requires
        dash_free(code),
        dash_free(id),
    ensures
        split_fields(app_key_text(code, id)) == seq![seq!['A'], code, id],
{
    let e = Seq::<char>::empty();
    assert(split_fields(e) =~= seq![e]);
    lemma_split_plain(e, seq!['A']);
    assert(e + seq!['A'] =~= seq!['A']);
    assert(split_fields(seq!['A']) =~= seq![seq!['A']]);
    lemma_split_dash(seq!['A']);
    assert(seq!['A'].push('-') =~= seq!['A', '-']);
    let s2 = seq!['A', '-'];
    assert(split_fields(s2) =~= seq![seq!['A'], e]);
    lemma_split_plain(s2, code);
    assert(e + code =~= code);
    assert(split_fields(s2 + code) =~= seq![seq!['A'], code]);
    lemma_split_dash(s2 + code);
    assert((s2 + code).push('-') =~= s2 + code + seq!['-']);
    let s4 = s2 + code + seq!['-'];
    assert(split_fields(s4) =~= seq![seq!['A'], code, e]);
    lemma_split_plain(s4, id);
    assert(split_fields(s4 + id) =~= seq![seq!['A'], code, id]);
}

/// Splits `key` at each `-`.
fn split_dashes(key: &Vec<char>) -> (parts: Vec<Vec<char>>)
    ensures
        field_views(parts@) == split_fields(key@),
{
    let mut parts: Vec<Vec<char>> = Vec::new();
    parts.push(Vec::new());
    assert(field_views(parts@) =~= split_fields(key@.take(0)));
    let mut i: usize = 0;
    while i < key.len()
        invariant
            i <= key@.len(),
            field_views(parts@) == split_fields(key@.take(i as int)),
        decreases key@.len() - i,
    {
        let c = key[i];
        let ghost prev = parts@;
        proof {
            lemma_split_fields_nonempty(key@.take(i as int));
            assert(key@.take(i + 1).drop_last() =~= key@.take(i as int));
        }
        if c == '-' {
            parts.push(Vec::new());
            assert(field_views(parts@) =~= field_views(prev).push(Seq::<char>::empty()));
        } else {
            let last = parts.len() - 1;
            let mut field = parts.remove(last);
            field.push(c);
            parts.push(field);
            assert(field_views(parts@) =~= field_views(prev).update(
                last as int,
                field_views(prev)[last as int].push(c),
            ));
        }
        i = i + 1;
    }
    assert(key@.take(i as int) =~= key@);
    parts
}

/// The region named by a well-formed app key.
fn parse_key_region(app_key: &str) -> (r: Option<Region>)
    ensures
        r == key_region(app_key@),
{
    let key = chars_of(app_key);
    let parts = split_dashes(&key);
    assert(field_views(parts@).len() == parts@.len());
    if parts.len() != 3 {
        return None;
    }
    assert(field_views(parts@)[0] == parts@[0]@);
    assert(field_views(parts@)[1] == parts@[1]@);
    assert(field_views(parts@)[2] == parts@[2]@);
    let a: [char; 1] = ['A'];
    let us: [char; 2] = ['U', 'S'];
    let eu: [char; 2] = ['E', 'U'];
    let dev: [char; 3] = ['D', 'E', 'V'];
    let sh: [char; 2] = ['S', 'H'];
    assert(a@ =~= seq!['A']);
    assert(us@ =~= seq!['U', 'S']);
    assert(eu@ =~= seq!['E', 'U']);
    assert(dev@ =~= seq!['D', 'E', 'V']);
    assert(sh@ =~= seq!['S', 'H']);
    if !same_chars(&parts[0], &a) || parts[2].len() == 0 {
        return None;
    }
    let code = &parts[1];
    if same_chars(code, &us) {
        Some(Region::Us)
    } else if same_chars(code, &eu) {
        Some(Region::Eu)
    } else if same_chars(code, &dev) {
        Some(Region::Dev)
    } else if same_chars(code, &sh) {
        Some(Region::SelfHosted)
    } else {
        None
    }
}

/// Builds the ingestion URL text `<base without trailing slashes>/api/v0/events`.
fn ingest_text(base: &str) -> (r: String)
    ensures
        r@ == ingest_url_text(base@),
{
    let chars = chars_of(base);
    let mut k: usize = chars.len();
    assert(base@.take(k as int) =~= base@);
    while k > 0 && chars[k - 1] == '/'
        invariant
            k <= chars@.len(),
            chars@ == base@,
            trim_trailing_slashes(base@) == trim_trailing_slashes(base@.take(k as int)),
        decreases k,
    {
        assert(base@.take(k as int).drop_last() =~= base@.take(k - 1));
        k = k - 1;
    }
    let path = "/api/v0/events";
    let head = String::from_str(base.substring_char(0, k));
    head.concat(path)
}

impl Config {
    /// The configuration that disables tracking.
    pub fn disabled(default_flush_interval: Duration) -> (r: Config)
        ensures
            r.app_key@ == Seq::<char>::empty(),
            r.ingest_api_url@ == fallback_url(),
            r.flush_interval == default_flush_interval,
    {
        let local = "http://localhost:3000";
        let url = match parse_url(local) {
            Some(u) => u,
            None => String::from_str(local),
        };
        Config { app_key: String::new(), ingest_api_url: url, flush_interval: default_flush_interval }
    }

    /// Derives the configuration from an app key. An invalid key, a self-hosted key without a
    /// host, or an ingestion URL that does not parse disables tracking.
    pub fn new(app_key: String, opts: &InitOptions, default_flush_interval: Duration) -> (r: Config)
        ensures
            match ingest_endpoint(app_key@, opt_view(opts.host)) {
                Some(url) => {
                    &&& r.app_key@ == app_key@
                    &&& r.ingest_api_url@ == url
                    &&& r.flush_interval == match opts.flush_interval {
                        Some(d) => d,
                        None => default_flush_interval,
                    }
                },
                None => {
                    &&& r.app_key@ == Seq::<char>::empty()
                    &&& r.ingest_api_url@ == fallback_url()
                    &&& r.flush_interval == default_flush_interval
                },
            },
    {
        let region = parse_key_region(app_key.as_str());
        let base: String = match region {
            Some(Region::Eu) => String::from_str("https://eu.aptabase.com"),
            Some(Region::Us) => String::from_str("https://us.aptabase.com"),
            Some(Region::Dev) => String::from_str("http://localhost:3000"),
            Some(Region::SelfHosted) => match &opts.host {
                Some(host) => host.clone(),
                None => return Config::disabled(default_flush_interval),
            },
            None => return Config::disabled(default_flush_interval),
        };
        let text = ingest_text(base.as_str());
        let url = match parse_url(text.as_str()) {
            Some(u) => u,
            None => return Config::disabled(default_flush_interval),
        };
        let flush_interval = match opts.flush_interval {
            Some(d) => d,
            None => default_flush_interval,
        };
        Config { app_key, ingest_api_url: url, flush_interval }
    }
}

/// The URL a disabled configuration holds: the parsed local URL, or its text if it did not parse.
pub open spec fn fallback_url() -> Seq<char> {
    match parsed_url(local_url()) {
        Some(u) => u,
        None => local_url(),
    }
}

} // verus!

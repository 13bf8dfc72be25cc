//! Where the recorded interactions come from, and how a fetch of one
//! authenticates.

use vstd::prelude::*;
use vstd::string::*;
use vstd::utf8::encode_utf8;
use crate::model::{clone_text, text_view, text_views};
use crate::text::{chars_of, join, lemma_position_from, position_from};
use crate::wrappers::{base64_encode, base64_text};

verus! {

/// What parts a user from a password.
pub const COLON: &'static str = ":";

/// What opens a basic authorization.
pub const BASIC: &'static str = "Basic ";

/// What opens a bearer authorization.
pub const BEARER: &'static str = "Bearer ";

/// The authorization sent for credentials of no kind.
pub const UNDEFINED: &'static str = "undefined";

/// How a fetch authenticates.
#[derive(Debug, PartialEq, Eq)]
pub enum HttpAuth {
    /// A user and, where there is one, a password.
    User(String, Option<String>),
    /// A bearer token.
    Token(String),
    /// Credentials of no kind.
    Unset,
}

/// The view of an `HttpAuth`.
pub enum AuthView {
    User(Seq<char>, Option<Seq<char>>),
    Token(Seq<char>),
    Unset,
}

impl View for HttpAuth {
    type V = AuthView;

    open spec fn view(&self) -> AuthView {
        match self {
            HttpAuth::User(user, password) => AuthView::User(user@, text_view(*password)),
            HttpAuth::Token(token) => AuthView::Token(token@),
            HttpAuth::Unset => AuthView::Unset,
        }
    }
}

impl Clone for HttpAuth {
    fn clone(&self) -> (r: Self)
        ensures
            r@ == self@,
    {
        match self {
            HttpAuth::User(user, password) => HttpAuth::User(user.clone(), clone_text(password)),
            HttpAuth::Token(token) => HttpAuth::Token(token.clone()),
            HttpAuth::Unset => HttpAuth::Unset,
        }
    }
}

/// The view of optional credentials.
pub open spec fn auth_view(auth: Option<HttpAuth>) -> Option<AuthView> {
    match auth {
        Some(a) => Some(a@),
        None => None,
    }
}

/// A copy of optional credentials.
pub fn clone_auth(auth: &Option<HttpAuth>) -> (r: Option<HttpAuth>)
    ensures
        auth_view(r) == auth_view(*auth),
{
    match auth {
        Some(a) => Some(a.clone()),
        None => None,
    }
}

/// Source for loading pacts
#[derive(Debug, PartialEq, Eq)]
pub enum PactSource {
    /// Load the pact from a pact file
    File(String),
    /// Load all the pacts from a Directory
    Dir(String),
    /// Load the pact from a URL
    URL(String, Option<HttpAuth>),
    /// Load all pacts from a Pact Broker
    Broker(String, Option<HttpAuth>),
}

/// The view of a `PactSource`.
pub enum SourceView {
    File(Seq<char>),
    Dir(Seq<char>),
    URL(Seq<char>, Option<AuthView>),
    Broker(Seq<char>, Option<AuthView>),
}

impl View for PactSource {
    type V = SourceView;

    open spec fn view(&self) -> SourceView {
        match self {
            PactSource::File(file) => SourceView::File(file@),
            PactSource::Dir(dir) => SourceView::Dir(dir@),
            PactSource::URL(url, auth) => SourceView::URL(url@, auth_view(*auth)),
            PactSource::Broker(url, auth) => SourceView::Broker(url@, auth_view(*auth)),
        }
    }
}

impl Clone for PactSource {
    fn clone(&self) -> (r: Self)
        ensures
            r@ == self@,
    {
        match self {
            PactSource::File(file) => PactSource::File(file.clone()),
            PactSource::Dir(dir) => PactSource::Dir(dir.clone()),
            PactSource::URL(url, auth) => PactSource::URL(url.clone(), clone_auth(auth)),
            PactSource::Broker(url, auth) => PactSource::Broker(url.clone(), clone_auth(auth)),
        }
    }
}

/// The views of a list of sources, in order.
pub open spec fn source_views(list: Seq<PactSource>) -> Seq<SourceView> {
    list.map_values(|s: PactSource| s@)
}

/// The values given on the command line that say where to load from and
/// with which credentials.
#[derive(Debug, PartialEq, Eq)]
pub struct SourceArgs {
    pub files: Vec<String>,
    pub dirs: Vec<String>,
    pub urls: Vec<String>,
    pub broker_url: Option<String>,
    pub user: Option<String>,
    pub token: Option<String>,
}

/// The view of a `SourceArgs`.
pub struct ArgsView {
    pub files: Seq<Seq<char>>,
    pub dirs: Seq<Seq<char>>,
    pub urls: Seq<Seq<char>>,
    pub broker_url: Option<Seq<char>>,
    pub user: Option<Seq<char>>,
    pub token: Option<Seq<char>>,
}

impl View for SourceArgs {
    type V = ArgsView;

    open spec fn view(&self) -> ArgsView {
        ArgsView {
            files: text_views(self.files@),
            dirs: text_views(self.dirs@),
            urls: text_views(self.urls@),
            broker_url: text_view(self.broker_url),
            user: text_view(self.user),
            token: text_view(self.token),
        }
    }
}

/// The credentials that `user` writes in the form `user:password`: the
/// user is what stands before the first colon; the password, where there
/// is a colon, is what stands between the first and the second, or the
/// end.
pub open spec fn split_user(user: Seq<char>) -> AuthView {
    let first = position_from(user, ':', 0);
    if first < user.len() {
        AuthView::User(
            user.subrange(0, first),
            Some(user.subrange(first + 1, position_from(user, ':', first + 1))),
        )
    } else {
        AuthView::User(user, None)
    }
}

/// The credentials that the arguments give: the user's where there is a
/// user, else the token's where there is a token.
pub open spec fn spec_credentials(user: Option<Seq<char>>, token: Option<Seq<char>>) -> Option<
    AuthView,
> {
    match user {
        Some(u) => Some(split_user(u)),
        None => match token {
            Some(t) => Some(AuthView::Token(t)),
            None => None,
        },
    }
}

/// The sources that the arguments name: the files, the directories, the
/// URLs and the broker, in this order, the last two with the credentials.
pub open spec fn spec_pact_source(args: ArgsView) -> Seq<SourceView> {
    let auth = spec_credentials(args.user, args.token);
    args.files.map_values(|f: Seq<char>| SourceView::File(f)) + args.dirs.map_values(
        |d: Seq<char>| SourceView::Dir(d),
    ) + args.urls.map_values(|u: Seq<char>| SourceView::URL(u, auth)) + match args.broker_url {
        Some(url) => seq![SourceView::Broker(url, auth)],
        None => Seq::empty(),
    }
}

/// The value of the `Authorization` header that presents `auth`.
pub open spec fn authorization(auth: AuthView) -> Seq<char> {
    match auth {
        AuthView::User(user, Some(password)) => BASIC@ + base64_text(
            encode_utf8(user + COLON@ + password),
        ),
        AuthView::User(user, None) => BASIC@ + base64_text(encode_utf8(user)),
        AuthView::Token(token) => BEARER@ + token,
        AuthView::Unset => UNDEFINED@,
    }
}

/// The position of the first colon in `chars` at or after `from`, or the
/// length of `chars`.
fn find_colon(chars: &Vec<char>, from: usize) -> (r: usize)
    requires
        from <= chars.len(),
    ensures
        r == position_from(chars@, ':', from as int),
        from <= r <= chars.len(),
{
    let mut i: usize = from;
    while i < chars.len() && chars[i] != ':'
        invariant
            from <= i <= chars.len(),
            position_from(chars@, ':', from as int) == position_from(chars@, ':', i as int),
        decreases chars.len() - i,
    {
        i += 1;
    }
    proof {
        lemma_position_from(chars@, ':', i as int);
    }
    i
}

/// The credentials that `user` writes in the form `user:password`.
pub fn user_credentials(user: &str) -> (r: HttpAuth)
    ensures
        r@ == split_user(user@),
{
    let chars = chars_of(user);
    let first = find_colon(&chars, 0);
    if first < chars.len() {
        let second = find_colon(&chars, first + 1);
        HttpAuth::User(
            user.substring_char(0, first).to_owned(),
            Some(user.substring_char(first + 1, second).to_owned()),
        )
    } else {
        HttpAuth::User(user.to_owned(), None)
    }
}

/// The credentials that the arguments give.
pub fn credentials(user: &Option<String>, token: &Option<String>) -> (r: Option<HttpAuth>)
    ensures
        auth_view(r) == spec_credentials(text_view(*user), text_view(*token)),
{
    match user {
        Some(u) => Some(user_credentials(u.as_str())),
        None => match token {
            Some(t) => Some(HttpAuth::Token(t.clone())),
            None => None,
        },
    }
}

/// The sources that the arguments name.
pub fn pact_source(matches: &SourceArgs) -> (sources: Vec<PactSource>)
    ensures
        source_views(sources@) == spec_pact_source(matches@),
{
    let auth = credentials(&matches.user, &matches.token);
    let ghost av = auth_view(auth);
    let ghost files = matches@.files.map_values(|f: Seq<char>| SourceView::File(f));
    let ghost dirs = matches@.dirs.map_values(|d: Seq<char>| SourceView::Dir(d));
    let ghost urls = matches@.urls.map_values(|u: Seq<char>| SourceView::URL(u, av));
    let mut sources: Vec<PactSource> = Vec::new();
    let mut i: usize = 0;
    assert(source_views(sources@) =~= files.subrange(0, 0));
    while i < matches.files.len()
        invariant
            i <= matches.files.len(),
            files == matches@.files.map_values(|f: Seq<char>| SourceView::File(f)),
            source_views(sources@) == files.subrange(0, i as int),
        decreases matches.files.len() - i,
    {
        let ghost before = sources@;
        let source = PactSource::File(matches.files[i].clone());
        sources.push(source);
        assert(source_views(sources@) =~= source_views(before).push(source@));
        assert(source_views(sources@) =~= files.subrange(0, i + 1));
        i += 1;
    }
    assert(source_views(sources@) =~= files + dirs.subrange(0, 0));
    i = 0;
    while i < matches.dirs.len()
        invariant
            i <= matches.dirs.len(),
            dirs == matches@.dirs.map_values(|d: Seq<char>| SourceView::Dir(d)),
            source_views(sources@) == files + dirs.subrange(0, i as int),
        decreases matches.dirs.len() - i,
    {
        let ghost before = sources@;
        let source = PactSource::Dir(matches.dirs[i].clone());
        sources.push(source);
        assert(source_views(sources@) =~= source_views(before).push(source@));
        assert(source_views(sources@) =~= files + dirs.subrange(0, i + 1));
        i += 1;
    }
    assert(source_views(sources@) =~= files + dirs + urls.subrange(0, 0));
    i = 0;
    while i < matches.urls.len()
        invariant
            i <= matches.urls.len(),
            av == auth_view(auth),
            urls == matches@.urls.map_values(|u: Seq<char>| SourceView::URL(u, av)),
            source_views(sources@) == files + dirs + urls.subrange(0, i as int),
        decreases matches.urls.len() - i,
    {
        let ghost before = sources@;
        let source = PactSource::URL(matches.urls[i].clone(), clone_auth(&auth));
        sources.push(source);
        assert(source_views(sources@) =~= source_views(before).push(source@));
        assert(source_views(sources@) =~= files + dirs + urls.subrange(0, i + 1));
        i += 1;
    }
    assert(source_views(sources@) =~= files + dirs + urls);
    match &matches.broker_url {
        Some(url) => {
            let ghost before = sources@;
            let source = PactSource::Broker(url.clone(), auth);
            sources.push(source);
            assert(source_views(sources@) =~= source_views(before).push(source@));
            assert(source_views(sources@) =~= files + dirs + urls + seq![source@]);
        },
        None => {
            assert(source_views(sources@) =~= files + dirs + urls + Seq::<SourceView>::empty());
        },
    }
    sources
}

/// The value of the `Authorization` header that presents `auth`.
pub fn authorization_header(auth: &HttpAuth) -> (r: String)
    ensures
        r@ == authorization(auth@),
{
    match auth {
        HttpAuth::User(user, password) => {
            let plain = match password {
                Some(p) => {
                    let mut text = user.clone();
                    text.append(COLON);
                    text.append(p.as_str());
                    text
                },
                None => user.clone(),
            };
            let encoded = base64_encode(&plain.as_str().as_bytes_vec());
            join(BASIC, encoded.as_str())
        },
        HttpAuth::Token(token) => join(BEARER, token.as_str()),
        HttpAuth::Unset => UNDEFINED.to_owned(),
    }
}

} // verus!

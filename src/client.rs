use vstd::prelude::*;
use crate::hints::{app_name, get_hint, hint_view, ClientHint, HintModel};
use crate::known_browsers::{AvailableBrowsers, BrowserModel};
use crate::os::{version_from, version_of};
use crate::pattern::{user_agent_pattern, ua_pattern_text, DetectError, PatternCache, compiles};
use crate::rules::{hit_view, scan_fails, ua_hit, RuleList};
use crate::text::{fill_template, same_text, substitute};

verus! {

/// The kind of software that sent a request.
#[derive(Debug, Clone, Copy, PartialEq, Eq, Structural)]
pub enum ClientType {
    Browser,
    MobileApp,
    Library,
    MediaPlayer,
    FeedReader,
    Pim,
}

/// The name under which rule files and reports write a client_type.
pub open spec fn client_type_name(t: ClientType) -> Seq<char> {
    match t {
        ClientType::Browser => "browser"@,
        ClientType::MobileApp => "mobile app"@,
        ClientType::Library => "library"@,
        ClientType::MediaPlayer => "mediaplayer"@,
        ClientType::FeedReader => "feed reader"@,
        ClientType::Pim => "pim"@,
    }
}

impl ClientType {
    /// The name of this client_type.
    pub fn name(&self) -> (r: &'static str)
        ensures
            r@ == client_type_name(*self),
    {
        match self {
            ClientType::Browser => "browser",
            ClientType::MobileApp => "mobile app",
            ClientType::Library => "library",
            ClientType::MediaPlayer => "mediaplayer",
            ClientType::FeedReader => "feed reader",
            ClientType::Pim => "pim",
        }
    }

    /// The client_type that `s` names.
    pub fn from_name(s: &str) -> (r: Option<ClientType>)
        ensures
            r matches Some(t) ==> s@ == client_type_name(t),
            r is None ==> forall|t: ClientType| s@ != #[trigger] client_type_name(t),
    {
        if same_text(s, "browser") {
            return Some(ClientType::Browser);
        }
        if same_text(s, "mobile app") {
            return Some(ClientType::MobileApp);
        }
        if same_text(s, "library") {
            return Some(ClientType::Library);
        }
        if same_text(s, "mediaplayer") {
            return Some(ClientType::MediaPlayer);
        }
        if same_text(s, "feed reader") {
            return Some(ClientType::FeedReader);
        }
        if same_text(s, "pim") {
            return Some(ClientType::Pim);
        }
        None
    }
}

/// The software that sent a request.
#[derive(Debug, Clone)]
pub struct Client {
    pub client_type: ClientType,
    pub name: String,
    pub version: Option<String>,
    pub engine: Option<String>,
    pub family: Option<String>,
    pub mobile_only: bool,
}

pub struct ClientModel {
    pub client_type: ClientType,
    pub name: Seq<char>,
    pub version: Option<Seq<char>>,
    pub engine: Option<Seq<char>>,
    pub family: Option<Seq<char>>,
    pub mobile_only: bool,
}

impl View for Client {
    type V = ClientModel;

    open spec fn view(&self) -> ClientModel {
        ClientModel {
            client_type: self.client_type,
            name: self.name@,
            version: self.version.deep_view(),
            engine: self.engine.deep_view(),
            family: self.family.deep_view(),
            mobile_only: self.mobile_only,
        }
    }
}

pub open spec fn client_view(c: Option<Client>) -> Option<ClientModel> {
    match c {
        Some(c) => Some(c@),
        None => None,
    }
}

/// What a client rule yields: its kind, templates for name and version, and
/// the rendering engine.
pub struct ClientRule {
    pub client_type: ClientType,
    pub name: String,
    pub version: String,
    pub engine: Option<String>,
}

/// A client named `name`: a browser's name is looked up in the catalog, whose
/// entry then gives the name, the family and whether it is mobile-only.
pub open spec fn named_client(
    catalog: AvailableBrowsers,
    client_type: ClientType,
    name: Seq<char>,
    version: Option<Seq<char>>,
    engine: Option<Seq<char>>,
) -> ClientModel {
    let entry: Option<BrowserModel> = if client_type == ClientType::Browser {
        match catalog.search_index(name) {
            Some(i) => Some(catalog.browser_seq()[i]@),
            None => None,
        }
    } else {
        None
    };
    match entry {
        Some(b) => ClientModel {
            client_type,
            name: b.name,
            version,
            engine,
            family: b.family,
            mobile_only: b.mobile_only,
        },
        None => ClientModel { client_type, name, version, engine, family: None, mobile_only: false },
    }
}

/// The client that a rule hit (`None` when no rule matched) gives; failing
/// a hit, the client named by the application id of the client hints.
pub open spec fn client_from_hit(
    rules: RuleList<ClientRule>,
    catalog: AvailableBrowsers,
    apps: Seq<(String, String)>,
    hit: Option<(int, Seq<Option<Seq<char>>>)>,
    hints: Option<HintModel>,
) -> Option<ClientModel> {
    match hit {
        Some((i, caps)) => {
            let rule = rules.items()[i];
            Some(
                named_client(
                    catalog,
                    rule.client_type,
                    substitute(rule.name@, caps),
                    version_from(rule.version@, caps),
                    rule.engine.deep_view(),
                ),
            )
        },
        None => match hints {
            Some(h) => match h.app {
                Some(a) => match app_name(apps, a) {
                    Some(n) => Some(
                        ClientModel {
                            client_type: ClientType::MobileApp,
                            name: n,
                            version: None,
                            engine: None,
                            family: None,
                            mobile_only: false,
                        },
                    ),
                    None => None,
                },
                None => None,
            },
            None => None,
        },
    }
}

/// The client of `ua`, from the first matching rule.
pub open spec fn client_of(
    rules: RuleList<ClientRule>,
    catalog: AvailableBrowsers,
    apps: Seq<(String, String)>,
    ua: Seq<char>,
    hints: Option<HintModel>,
) -> Option<ClientModel> {
    client_from_hit(rules, catalog, apps, ua_hit(rules.pattern_texts(), ua), hints)
}

/// Builds a client, normalising a browser's name through the catalog.
fn make_client(
    catalog: &AvailableBrowsers,
    client_type: ClientType,
    name: String,
    version: Option<String>,
    engine: Option<String>,
) -> (r: Client)
    requires
        catalog.wf(),
    ensures
        r@ == named_client(*catalog, client_type, name@, version.deep_view(), engine.deep_view()),
{
    if client_type == ClientType::Browser {
        if let Some(b) = catalog.search_by_name(name.as_str()) {
            return Client {
                client_type,
                name: b.name.clone(),
                version,
                engine,
                family: crate::bot::copy_text(&b.family),
                mobile_only: b.mobile_only,
            };
        }
    }
    Client { client_type, name, version, engine, family: None, mobile_only: false }
}

/// The ordered client rules.
pub struct ClientList {
    pub rules: RuleList<ClientRule>,
}

impl ClientList {
    pub open spec fn wf(&self) -> bool {
        self.rules.wf()
    }

    /// A list without rules.
    pub fn new() -> (r: ClientList)
        ensures
            r.wf(),
            r.rules.pattern_texts().len() == 0,
    {
        ClientList { rules: RuleList::new() }
    }

    /// Appends a rule matching `regex`.
    pub fn add_rule(&mut self, cache: &mut PatternCache, regex: &str, rule: ClientRule) -> (r: Result<(), DetectError>)
        requires
            old(self).wf(),
            old(cache).wf(),
        ensures
            final(cache).wf(),
            r is Ok <==> compiles(ua_pattern_text(regex@)),
            final(self).wf(),
            r is Ok ==> final(self).rules.pattern_texts() == old(self).rules.pattern_texts().push(
                ua_pattern_text(regex@),
            ) && final(self).rules.items() == old(self).rules.items().push(rule),
            r is Err ==> r->Err_0 == DetectError::InvalidPattern && *final(self) == *old(self),
    {
        let p = cache.compile(user_agent_pattern(regex).as_str())?;
        self.rules.push(p, rule);
        Ok(())
    }

    /// Resolves the client of `ua`, with optional client hints.
    pub fn lookup(
        &self,
        catalog: &AvailableBrowsers,
        apps: &Vec<(String, String)>,
        ua: &str,
        hints: Option<&ClientHint>,
    ) -> (r: Result<Option<Client>, DetectError>)
        requires
            self.wf(),
            catalog.wf(),
        ensures
            r is Ok ==> client_view(r->Ok_0) == client_of(self.rules, *catalog, apps@, ua@, hint_view(hints)),
            r is Err <==> scan_fails(self.rules.pattern_texts(), ua@),
            r is Err ==> r->Err_0 == DetectError::MatchFailed,
    {
        let hit = self.rules.first_match(ua)?;
        Ok(self.resolve(catalog, apps, hit, hints))
    }

    /// The client given the rule that matched (its index and capture
    /// groups), or `None` for no match, and optional client hints.
    pub fn resolve(
        &self,
        catalog: &AvailableBrowsers,
        apps: &Vec<(String, String)>,
        hit: Option<(usize, Vec<Option<String>>)>,
        hints: Option<&ClientHint>,
    ) -> (r: Option<Client>)
        requires
            self.wf(),
            catalog.wf(),
            hit matches Some((i, _)) ==> i < self.rules.items().len(),
        ensures
            client_view(r) == client_from_hit(self.rules, *catalog, apps@, hit_view(hit), hint_view(hints)),
    {
        match hit {
            Some((i, caps)) => {
                let rule = self.rules.item(i);
                let name = fill_template(rule.name.as_str(), &caps);
                let version = version_of(rule.version.as_str(), &caps);
                let engine = crate::bot::copy_text(&rule.engine);
                Some(make_client(catalog, rule.client_type, name, version, engine))
            },
            None => {
                if let Some(h) = hints {
                    if let Some(a) = &h.app {
                        if let Some(n) = get_hint(apps, a.as_str()) {
                            return Some(
                                Client {
                                    client_type: ClientType::MobileApp,
                                    name: n,
                                    version: None,
                                    engine: None,
                                    family: None,
                                    mobile_only: false,
                                },
                            );
                        }
                    }
                }
                None
            },
        }
    }
}

} // verus!

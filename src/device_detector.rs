use vstd::prelude::*;
use crate::bot::{bot_of, Bot, BotList, BotModel};
use crate::client::{client_of, client_view, Client, ClientList, ClientModel, ClientType};
use crate::device::{device_of, Device, DeviceList, DeviceModel, DeviceType};
use crate::hints::{
    hints_of, lemma_hints_ignore_name_case, lemma_malformed_header_ignored, malformed_hint,
    same_but_case, ClientHint, HintModel,
};
use crate::known_browsers::AvailableBrowsers;
use crate::os::{os_of, os_view, OsList, OsModel, OS};
use crate::pattern::DetectError;
use crate::rules::{never_fails, scan_fails};

verus! {

/// The outcome of a classification: a bot, or a resolved client, device and
/// operating system.
#[derive(Debug)]
pub enum Detection {
    Known(KnownDevice),
    Bot(Bot),
}

/// A request that is not a bot.
#[derive(Debug)]
pub struct KnownDevice {
    pub client: Option<Client>,
    pub device: Device,
    pub os: Option<OS>,
}

pub struct KnownModel {
    pub client: Option<ClientModel>,
    pub device: DeviceModel,
    pub os: Option<OsModel>,
}

pub enum DetectionModel {
    Known(KnownModel),
    Bot(BotModel),
}

impl View for KnownDevice {
    type V = KnownModel;

    open spec fn view(&self) -> KnownModel {
        KnownModel { client: client_view(self.client), device: self.device@, os: os_view(self.os) }
    }
}

impl View for Detection {
    type V = DetectionModel;

    open spec fn view(&self) -> DetectionModel {
        match self {
            Detection::Known(k) => DetectionModel::Known(k@),
            Detection::Bot(b) => DetectionModel::Bot(b@),
        }
    }
}

/// The device types that always count as mobile.
pub open spec fn mobile_type(t: DeviceType) -> bool {
    t == DeviceType::FeaturePhone || t == DeviceType::SmartPhone || t == DeviceType::Tablet || t
        == DeviceType::Phablet || t == DeviceType::Camera || t == DeviceType::PortableMediaPlayer
}

/// The device types that never count as mobile.
pub open spec fn stationary_type(t: DeviceType) -> bool {
    t == DeviceType::Television || t == DeviceType::SmartDisplay || t == DeviceType::Console
}

/// Whether a client is a browser that exists on mobile devices only.
pub open spec fn mobile_browser(c: Option<ClientModel>) -> bool {
    match c {
        Some(c) => c.client_type == ClientType::Browser && c.mobile_only,
        None => false,
    }
}

pub open spec fn desktop_of(k: KnownModel) -> bool {
    k.device.device_type == Some(DeviceType::Desktop)
}

/// Whether a known request counts as mobile: a mobile client hint decides
/// first, then the device type, then a mobile-only browser, and otherwise
/// whatever is not a desktop.
pub open spec fn mobile_of(k: KnownModel) -> bool {
    if k.device.mobile_client_hint {
        true
    } else if k.device.device_type is Some && mobile_type(k.device.device_type->Some_0) {
        true
    } else if k.device.device_type is Some && stationary_type(k.device.device_type->Some_0) {
        false
    } else if mobile_browser(k.client) {
        true
    } else {
        !desktop_of(k)
    }
}

pub open spec fn client_is(c: Option<Client>, t: ClientType) -> bool {
    match c {
        Some(c) => c.client_type == t,
        None => false,
    }
}

impl KnownDevice {
    fn client_type_is(&self, t: ClientType) -> (r: bool)
        ensures
            r == client_is(self.client, t),
    {
        match &self.client {
            Some(c) => c.client_type == t,
            None => false,
        }
    }

    fn device_type_is(&self, t: DeviceType) -> (r: bool)
        ensures
            r == (self.device.device_type == Some(t)),
    {
        match self.device.device_type {
            Some(d) => d == t,
            None => false,
        }
    }

    pub fn is_mobile(&self) -> (r: bool)
        ensures
            r == mobile_of(self@),
    {
        if self.device.mobile_client_hint {
            return true;
        }
        if let Some(t) = self.device.device_type {
            if t == DeviceType::FeaturePhone || t == DeviceType::SmartPhone || t == DeviceType::Tablet
                || t == DeviceType::Phablet || t == DeviceType::Camera || t
                == DeviceType::PortableMediaPlayer {
                return true;
            }
            if t == DeviceType::Television || t == DeviceType::SmartDisplay || t == DeviceType::Console {
                return false;
            }
        }
        if let Some(c) = &self.client {
            if c.client_type == ClientType::Browser && c.mobile_only {
                return true;
            }
        }
        !self.is_desktop()
    }

    pub fn is_touch_enabled(&self) -> (r: bool)
        ensures
            r == self.device.touch_enabled,
    {
        self.device.touch_enabled
    }

    /// A known request is never a bot.
    pub fn is_bot(&self) -> (r: bool)
        ensures
            !r,
    {
        false
    }

    pub fn is_pim(&self) -> (r: bool)
        ensures
            r == client_is(self.client, ClientType::Pim),
    {
        self.client_type_is(ClientType::Pim)
    }

    pub fn is_feed_reader(&self) -> (r: bool)
        ensures
            r == client_is(self.client, ClientType::FeedReader),
    {
        self.client_type_is(ClientType::FeedReader)
    }

    pub fn is_mobile_app(&self) -> (r: bool)
        ensures
            r == client_is(self.client, ClientType::MobileApp),
    {
        self.client_type_is(ClientType::MobileApp)
    }

    pub fn is_media_player(&self) -> (r: bool)
        ensures
            r == client_is(self.client, ClientType::MediaPlayer),
    {
        self.client_type_is(ClientType::MediaPlayer)
    }

    pub fn is_browser(&self) -> (r: bool)
        ensures
            r == client_is(self.client, ClientType::Browser),
    {
        self.client_type_is(ClientType::Browser)
    }

    pub fn is_library(&self) -> (r: bool)
        ensures
            r == client_is(self.client, ClientType::Library),
    {
        self.client_type_is(ClientType::Library)
    }

    pub fn is_desktop(&self) -> (r: bool)
        ensures
            r == (self.device.device_type == Some(DeviceType::Desktop)),
            r == desktop_of(self@),
    {
        self.device_type_is(DeviceType::Desktop)
    }

    pub fn is_console(&self) -> (r: bool)
        ensures
            r == (self.device.device_type == Some(DeviceType::Console)),
    {
        self.device_type_is(DeviceType::Console)
    }

    pub fn is_car_browser(&self) -> (r: bool)
        ensures
            r == (self.device.device_type == Some(DeviceType::CarBrowser)),
    {
        self.device_type_is(DeviceType::CarBrowser)
    }

    pub fn is_camera(&self) -> (r: bool)
        ensures
            r == (self.device.device_type == Some(DeviceType::Camera)),
    {
        self.device_type_is(DeviceType::Camera)
    }

    pub fn is_portable_media_player(&self) -> (r: bool)
        ensures
            r == (self.device.device_type == Some(DeviceType::PortableMediaPlayer)),
    {
        self.device_type_is(DeviceType::PortableMediaPlayer)
    }

    pub fn is_notebook(&self) -> (r: bool)
        ensures
            r == (self.device.device_type == Some(DeviceType::Notebook)),
    {
        self.device_type_is(DeviceType::Notebook)
    }

    pub fn is_television(&self) -> (r: bool)
        ensures
            r == (self.device.device_type == Some(DeviceType::Television)),
    {
        self.device_type_is(DeviceType::Television)
    }

    pub fn is_smart_display(&self) -> (r: bool)
        ensures
            r == (self.device.device_type == Some(DeviceType::SmartDisplay)),
    {
        self.device_type_is(DeviceType::SmartDisplay)
    }

    pub fn is_feature_phone(&self) -> (r: bool)
        ensures
            r == (self.device.device_type == Some(DeviceType::FeaturePhone)),
    {
        self.device_type_is(DeviceType::FeaturePhone)
    }

    pub fn is_smart_phone(&self) -> (r: bool)
        ensures
            r == (self.device.device_type == Some(DeviceType::SmartPhone)),
    {
        self.device_type_is(DeviceType::SmartPhone)
    }

    pub fn is_tablet(&self) -> (r: bool)
        ensures
            r == (self.device.device_type == Some(DeviceType::Tablet)),
    {
        self.device_type_is(DeviceType::Tablet)
    }

    pub fn is_smart_speaker(&self) -> (r: bool)
        ensures
            r == (self.device.device_type == Some(DeviceType::SmartSpeaker)),
    {
        self.device_type_is(DeviceType::SmartSpeaker)
    }

    pub fn is_peripheral(&self) -> (r: bool)
        ensures
            r == (self.device.device_type == Some(DeviceType::Peripheral)),
    {
        self.device_type_is(DeviceType::Peripheral)
    }
}

/// The rule lists and lookup tables that a classification runs on. They are
/// built once and only read afterwards.
pub struct Engine {
    pub bots: BotList,
    pub oss: OsList,
    pub clients: ClientList,
    pub devices: DeviceList,
    pub browsers: AvailableBrowsers,
    pub apps: Vec<(String, String)>,
}

impl Engine {
    pub open spec fn wf(&self) -> bool {
        &&& self.bots.wf()
        &&& self.oss.wf()
        &&& self.clients.wf()
        &&& self.devices.wf()
        &&& self.browsers.wf()
    }
}

pub open spec fn hints_from(headers: Option<Seq<(String, String)>>) -> Option<HintModel> {
    match headers {
        Some(hs) => Some(hints_of(hs)),
        None => None,
    }
}

/// The classification of `ua` with optional client-hint headers: a bot when
/// a bot rule matches; otherwise the client, device and operating system
/// that their resolvers give.
pub open spec fn detect(e: Engine, ua: Seq<char>, headers: Option<Seq<(String, String)>>) -> DetectionModel {
    match bot_of(e.bots, ua) {
        Some(b) => DetectionModel::Bot(b),
        None => {
            let h = hints_from(headers);
            DetectionModel::Known(
                KnownModel {
                    client: client_of(e.clients.rules, e.browsers, e.apps@, ua, h),
                    device: device_of(e.devices.rules, e.devices.touch, ua, h),
                    os: os_of(e.oss.rules, ua, h),
                },
            )
        },
    }
}

/// Whether classifying `ua` meets a failing pattern search: among the bot
/// rules, or, when no bot rule applies, among the operating-system, client,
/// touch or device rules.
pub open spec fn parse_fails(e: Engine, ua: Seq<char>) -> bool {
    scan_fails(e.bots.rules.pattern_texts(), ua) || (bot_of(e.bots, ua) is None && (scan_fails(
        e.oss.rules.pattern_texts(),
        ua,
    ) || scan_fails(e.clients.rules.pattern_texts(), ua) || scan_fails(
        e.devices.touch.pattern_texts(),
        ua,
    ) || scan_fails(e.devices.rules.pattern_texts(), ua)))
}

/// The outcome of classifying `ua`: nothing when a pattern search fails,
/// else the classification.
pub open spec fn parse_outcome(e: Engine, ua: Seq<char>, headers: Option<Seq<(String, String)>>) -> Option<
    DetectionModel,
> {
    if parse_fails(e, ua) {
        None
    } else {
        Some(detect(e, ua, headers))
    }
}

pub open spec fn result_view(r: Result<Detection, DetectError>) -> Option<DetectionModel> {
    match r {
        Ok(d) => Some(d@),
        Err(_) => None,
    }
}

pub open spec fn headers_view(headers: Option<Vec<(String, String)>>) -> Option<Seq<(String, String)>> {
    match headers {
        Some(hs) => Some(hs@),
        None => None,
    }
}

/// Classifies a User-Agent, with optional client-hint headers. The bot rules
/// run first; when one matches, nothing else is resolved.
pub fn parse(engine: &Engine, ua: &str, headers: Option<Vec<(String, String)>>) -> (r: Result<
    Detection,
    DetectError,
>)
    requires
        engine.wf(),
    ensures
        r is Ok ==> r->Ok_0@ == detect(*engine, ua@, headers_view(headers)),
        r is Err <==> parse_fails(*engine, ua@),
        result_view(r) == parse_outcome(*engine, ua@, headers_view(headers)),
        r is Err ==> r->Err_0 == DetectError::MatchFailed,
{
    if let Some(bot) = engine.bots.lookup(ua)? {
        return Ok(Detection::Bot(bot));
    }
    let hints = match &headers {
        Some(hs) => Some(ClientHint::from_headers(hs)),
        None => None,
    };
    let os = engine.oss.lookup(ua, hints.as_ref())?;
    let client = engine.clients.lookup(&engine.browsers, &engine.apps, ua, hints.as_ref())?;
    let device = engine.devices.lookup(ua, hints.as_ref())?;
    Ok(Detection::Known(KnownDevice { client, device, os }))
}

/// Classification is a function of its inputs: two results of `parse` on
/// the same engine, User-Agent and headers are identical, failures included.
pub proof fn lemma_parse_deterministic(
    e: Engine,
    ua: Seq<char>,
    headers: Option<Seq<(String, String)>>,
    first: Result<Detection, DetectError>,
    second: Result<Detection, DetectError>,
)
    requires
        result_view(first) == parse_outcome(e, ua, headers),
        result_view(second) == parse_outcome(e, ua, headers),
    ensures
        result_view(first) == result_view(second),
        first is Ok <==> second is Ok,
{
}

/// A successful result is a bot exactly when a bot rule matches, and is then
/// that bot, carrying nothing else.
pub proof fn lemma_bot_exclusive(e: Engine, ua: Seq<char>, headers: Option<Seq<(String, String)>>)
    ensures
        detect(e, ua, headers) is Bot <==> bot_of(e.bots, ua) is Some,
        detect(e, ua, headers) is Known <==> bot_of(e.bots, ua) is None,
        bot_of(e.bots, ua) is Some ==> detect(e, ua, headers) == DetectionModel::Bot(
            bot_of(e.bots, ua)->Some_0,
        ),
{
}

/// Once the bot rules are searched without failure and one matches, the
/// outcome is that bot: neither the headers nor the operating-system, client
/// and device rules nor the catalogs contribute, and nothing can fail.
pub proof fn lemma_bot_short_circuit(
    e1: Engine,
    e2: Engine,
    ua: Seq<char>,
    h1: Option<Seq<(String, String)>>,
    h2: Option<Seq<(String, String)>>,
)
    requires
        e1.bots == e2.bots,
        !scan_fails(e1.bots.rules.pattern_texts(), ua),
        bot_of(e1.bots, ua) is Some,
    ensures
        parse_outcome(e1, ua, h1) == parse_outcome(e2, ua, h2),
        parse_outcome(e1, ua, h1) == Some(DetectionModel::Bot(bot_of(e1.bots, ua)->Some_0)),
{
}

/// Header names are matched without regard to ASCII case, so renaming
/// headers that way leaves the outcome unchanged.
pub proof fn lemma_parse_ignores_header_case(
    e: Engine,
    ua: Seq<char>,
    h1: Seq<(String, String)>,
    h2: Seq<(String, String)>,
)
    requires
        same_but_case(h1, h2),
    ensures
        parse_outcome(e, ua, Some(h1)) == parse_outcome(e, ua, Some(h2)),
{
    lemma_hints_ignore_name_case(h1, h2);
}

/// An extra header that carries no well-formed hint value, wherever it
/// stands, leaves the outcome unchanged: it never causes a failure.
pub proof fn lemma_parse_ignores_malformed_header(
    e: Engine,
    ua: Seq<char>,
    hs: Seq<(String, String)>,
    k: int,
    x: (String, String),
)
    requires
        0 <= k <= hs.len(),
        malformed_hint(x),
    ensures
        parse_outcome(e, ua, Some(hs.insert(k, x))) == parse_outcome(e, ua, Some(hs)),
{
    lemma_malformed_header_ignored(hs, k, x);
}

/// Without any failing pattern search, classification succeeds.
pub proof fn lemma_success_without_failures(e: Engine, ua: Seq<char>, headers: Option<Seq<(String, String)>>)
    requires
        never_fails(e.bots.rules.pattern_texts(), ua),
        never_fails(e.oss.rules.pattern_texts(), ua),
        never_fails(e.clients.rules.pattern_texts(), ua),
        never_fails(e.devices.touch.pattern_texts(), ua),
        never_fails(e.devices.rules.pattern_texts(), ua),
    ensures
        parse_outcome(e, ua, headers) == Some(detect(e, ua, headers)),
{
}

/// A mobile client hint together with a desktop device type makes a request
/// both mobile and desktop.
pub proof fn lemma_mobile_hint_on_desktop(k: KnownModel)
    requires
        k.device.mobile_client_hint,
        k.device.device_type == Some(DeviceType::Desktop),
    ensures
        mobile_of(k),
        desktop_of(k),
{
}

/// Without any device type, client hint or mobile-only browser, a request
/// counts as mobile and as nothing else.
pub proof fn lemma_unclassified_is_mobile(k: KnownModel)
    requires
        k.device.device_type is None,
        !k.device.mobile_client_hint,
        k.client is None,
    ensures
        mobile_of(k),
        !desktop_of(k),
{
}

} // verus!

use vstd::prelude::*;
use crate::hints::{hint_view, plain_token, ClientHint, HintModel};
use crate::pattern::{user_agent_pattern, ua_pattern_text, DetectError, PatternCache, compiles};
use crate::rules::{first_hit_index, hit_view, scan_fails, ua_hit, RuleList};
use crate::text::{fill_template, same_text, substitute};

verus! {

/// The form factor of a device.
#[derive(Debug, Clone, Copy, PartialEq, Eq, Structural)]
pub enum DeviceType {
    Desktop,
    SmartPhone,
    FeaturePhone,
    Tablet,
    Phablet,
    Console,
    Television,
    SmartDisplay,
    SmartSpeaker,
    Camera,
    PortableMediaPlayer,
    Peripheral,
    Notebook,
    CarBrowser,
    Wearable,
}

/// The name under which rule files and reports write a device_type.
pub open spec fn device_type_name(t: DeviceType) -> Seq<char> {
    match t {
        DeviceType::Desktop => "desktop"@,
        DeviceType::SmartPhone => "smartphone"@,
        DeviceType::FeaturePhone => "feature phone"@,
        DeviceType::Tablet => "tablet"@,
        DeviceType::Phablet => "phablet"@,
        DeviceType::Console => "console"@,
        DeviceType::Television => "tv"@,
        DeviceType::SmartDisplay => "smart display"@,
        DeviceType::SmartSpeaker => "smart speaker"@,
        DeviceType::Camera => "camera"@,
        DeviceType::PortableMediaPlayer => "portable media player"@,
        DeviceType::Peripheral => "peripheral"@,
        DeviceType::Notebook => "notebook"@,
        DeviceType::CarBrowser => "car browser"@,
        DeviceType::Wearable => "wearable"@,
    }
}

impl DeviceType {
    /// The name of this device_type.
    pub fn name(&self) -> (r: &'static str)
        ensures
            r@ == device_type_name(*self),
    {
        match self {
            DeviceType::Desktop => "desktop",
            DeviceType::SmartPhone => "smartphone",
            DeviceType::FeaturePhone => "feature phone",
            DeviceType::Tablet => "tablet",
            DeviceType::Phablet => "phablet",
            DeviceType::Console => "console",
            DeviceType::Television => "tv",
            DeviceType::SmartDisplay => "smart display",
            DeviceType::SmartSpeaker => "smart speaker",
            DeviceType::Camera => "camera",
            DeviceType::PortableMediaPlayer => "portable media player",
            DeviceType::Peripheral => "peripheral",
            DeviceType::Notebook => "notebook",
            DeviceType::CarBrowser => "car browser",
            DeviceType::Wearable => "wearable",
        }
    }

    /// The device_type that `s` names.
    pub fn from_name(s: &str) -> (r: Option<DeviceType>)
        ensures
            r matches Some(t) ==> s@ == device_type_name(t),
            r is None ==> forall|t: DeviceType| s@ != #[trigger] device_type_name(t),
    {
        if same_text(s, "desktop") {
            return Some(DeviceType::Desktop);
        }
        if same_text(s, "smartphone") {
            return Some(DeviceType::SmartPhone);
        }
        if same_text(s, "feature phone") {
            return Some(DeviceType::FeaturePhone);
        }
        if same_text(s, "tablet") {
            return Some(DeviceType::Tablet);
        }
        if same_text(s, "phablet") {
            return Some(DeviceType::Phablet);
        }
        if same_text(s, "console") {
            return Some(DeviceType::Console);
        }
        if same_text(s, "tv") {
            return Some(DeviceType::Television);
        }
        if same_text(s, "smart display") {
            return Some(DeviceType::SmartDisplay);
        }
        if same_text(s, "smart speaker") {
            return Some(DeviceType::SmartSpeaker);
        }
        if same_text(s, "camera") {
            return Some(DeviceType::Camera);
        }
        if same_text(s, "portable media player") {
            return Some(DeviceType::PortableMediaPlayer);
        }
        if same_text(s, "peripheral") {
            return Some(DeviceType::Peripheral);
        }
        if same_text(s, "notebook") {
            return Some(DeviceType::Notebook);
        }
        if same_text(s, "car browser") {
            return Some(DeviceType::CarBrowser);
        }
        if same_text(s, "wearable") {
            return Some(DeviceType::Wearable);
        }
        None
    }
}

/// A device; every field may be unknown.
#[derive(Debug, Clone)]
pub struct Device {
    pub device_type: Option<DeviceType>,
    pub brand: Option<String>,
    pub model: Option<String>,
    pub touch_enabled: bool,
    pub mobile_client_hint: bool,
}

pub struct DeviceModel {
    pub device_type: Option<DeviceType>,
    pub brand: Option<Seq<char>>,
    pub model: Option<Seq<char>>,
    pub touch_enabled: bool,
    pub mobile_client_hint: bool,
}

impl View for Device {
    type V = DeviceModel;

    open spec fn view(&self) -> DeviceModel {
        DeviceModel {
            device_type: self.device_type,
            brand: self.brand.deep_view(),
            model: self.model.deep_view(),
            touch_enabled: self.touch_enabled,
            mobile_client_hint: self.mobile_client_hint,
        }
    }
}

/// What a device rule yields: a form factor, a brand and a model template.
pub struct DeviceRule {
    pub device_type: Option<DeviceType>,
    pub brand: String,
    pub model: String,
}

/// The device that a rule hit (`None` when no rule matched) gives: form
/// factor, brand and model from the rule (all unknown without a hit); touch
/// support as given; the mobile hint as the client hints state it.
pub open spec fn device_from_hit(
    rules: RuleList<DeviceRule>,
    hit: Option<(int, Seq<Option<Seq<char>>>)>,
    touch_enabled: bool,
    hints: Option<HintModel>,
) -> DeviceModel {
    let mobile_client_hint = match hints {
        Some(h) => h.mobile,
        None => false,
    };
    match hit {
        Some((i, caps)) => DeviceModel {
            device_type: rules.items()[i].device_type,
            brand: plain_token(rules.items()[i].brand@),
            model: plain_token(substitute(rules.items()[i].model@, caps)),
            touch_enabled,
            mobile_client_hint,
        },
        None => DeviceModel {
            device_type: None,
            brand: None,
            model: None,
            touch_enabled,
            mobile_client_hint,
        },
    }
}

/// The device of `ua`, from the first matching device rule; touch support
/// when any touch rule matches.
pub open spec fn device_of(
    rules: RuleList<DeviceRule>,
    touch: RuleList<()>,
    ua: Seq<char>,
    hints: Option<HintModel>,
) -> DeviceModel {
    device_from_hit(
        rules,
        ua_hit(rules.pattern_texts(), ua),
        first_hit_index(touch.pattern_texts(), ua) is Some,
        hints,
    )
}

/// The text `s`, or nothing when it is empty.
pub fn non_empty(s: String) -> (r: Option<String>)
    ensures
        r.deep_view() == plain_token(s@),
{
    if s.unicode_len() > 0 {
        Some(s)
    } else {
        None
    }
}

/// The ordered device rules, and the rules that reveal a touch screen.
pub struct DeviceList {
    pub rules: RuleList<DeviceRule>,
    pub touch: RuleList<()>,
}

impl DeviceList {
    pub open spec fn wf(&self) -> bool {
        self.rules.wf() && self.touch.wf()
    }

    /// Lists without rules.
    pub fn new() -> (r: DeviceList)
        ensures
            r.wf(),
            r.rules.pattern_texts().len() == 0,
            r.touch.pattern_texts().len() == 0,
    {
        DeviceList { rules: RuleList::new(), touch: RuleList::new() }
    }

    /// Appends a device rule matching `regex`.
    pub fn add_rule(&mut self, cache: &mut PatternCache, regex: &str, rule: DeviceRule) -> (r: Result<(), DetectError>)
        requires
            old(self).wf(),
            old(cache).wf(),
        ensures
            final(cache).wf(),
            r is Ok <==> compiles(ua_pattern_text(regex@)),
            final(self).wf(),
            final(self).touch == old(self).touch,
            r is Ok ==> final(self).rules.pattern_texts() == old(self).rules.pattern_texts().push(
                ua_pattern_text(regex@),
            ) && final(self).rules.items() == old(self).rules.items().push(rule),
            r is Err ==> r->Err_0 == DetectError::InvalidPattern && *final(self) == *old(self),
    {
        let p = cache.compile(user_agent_pattern(regex).as_str())?;
        self.rules.push(p, rule);
        Ok(())
    }

    /// Appends a rule whose match reveals a touch screen.
    pub fn add_touch_rule(&mut self, cache: &mut PatternCache, regex: &str) -> (r: Result<(), DetectError>)
        requires
            old(self).wf(),
            old(cache).wf(),
        ensures
            final(cache).wf(),
            r is Ok <==> compiles(ua_pattern_text(regex@)),
            final(self).wf(),
            final(self).rules == old(self).rules,
            r is Ok ==> final(self).touch.pattern_texts() == old(self).touch.pattern_texts().push(
                ua_pattern_text(regex@),
            ),
            r is Err ==> r->Err_0 == DetectError::InvalidPattern && *final(self) == *old(self),
    {
        let p = cache.compile(user_agent_pattern(regex).as_str())?;
        self.touch.push(p, ());
        Ok(())
    }

    /// Resolves the device of `ua`, with optional client hints.
    pub fn lookup(&self, ua: &str, hints: Option<&ClientHint>) -> (r: Result<Device, DetectError>)
        requires
            self.wf(),
        ensures
            r is Ok ==> r->Ok_0@ == device_of(self.rules, self.touch, ua@, hint_view(hints)),
            r is Err <==> scan_fails(self.touch.pattern_texts(), ua@) || scan_fails(
                self.rules.pattern_texts(),
                ua@,
            ),
            r is Err ==> r->Err_0 == DetectError::MatchFailed,
    {
        let touch_enabled = self.touch.first_match(ua)?.is_some();
        let hit = self.rules.first_match(ua)?;
        Ok(self.resolve(hit, touch_enabled, hints))
    }

    /// The device given the rule that matched (its index and capture
    /// groups), or `None` for no match, touch support and optional client
    /// hints.
    pub fn resolve(
        &self,
        hit: Option<(usize, Vec<Option<String>>)>,
        touch_enabled: bool,
        hints: Option<&ClientHint>,
    ) -> (r: Device)
        requires
            self.wf(),
            hit matches Some((i, _)) ==> i < self.rules.items().len(),
        ensures
            r@ == device_from_hit(self.rules, hit_view(hit), touch_enabled, hint_view(hints)),
    {
        let mobile_client_hint = match hints {
            Some(h) => h.mobile,
            None => false,
        };
        match hit {
            Some((i, caps)) => {
                let rule = self.rules.item(i);
                Device {
                    device_type: rule.device_type,
                    brand: non_empty(rule.brand.clone()),
                    model: non_empty(fill_template(rule.model.as_str(), &caps)),
                    touch_enabled,
                    mobile_client_hint,
                }
            },
            None => Device {
                device_type: None,
                brand: None,
                model: None,
                touch_enabled,
                mobile_client_hint,
            },
        }
    }
}

} // verus!

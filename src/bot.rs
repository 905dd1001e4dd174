use vstd::prelude::*;
use crate::pattern::{ua_pattern_text, user_agent_pattern, DetectError, PatternCache, compiles};
use crate::rules::{first_hit_index, scan_fails, RuleList};

verus! {

/// The organisation behind a bot.
#[derive(Debug, Clone)]
pub struct BotProducer {
    pub name: String,
    pub url: String,
}

/// An automated agent.
#[derive(Debug, Clone)]
pub struct Bot {
    pub name: String,
    pub category: Option<String>,
    pub url: Option<String>,
    pub producer: Option<BotProducer>,
}

pub struct BotModel {
    pub name: Seq<char>,
    pub category: Option<Seq<char>>,
    pub url: Option<Seq<char>>,
    pub producer: Option<(Seq<char>, Seq<char>)>,
}

impl View for Bot {
    type V = BotModel;

    open spec fn view(&self) -> BotModel {
        BotModel {
            name: self.name@,
            category: self.category.deep_view(),
            url: self.url.deep_view(),
            producer: match self.producer {
                Some(p) => Some((p.name@, p.url@)),
                None => None,
            },
        }
    }
}

pub open spec fn bot_view(b: Option<Bot>) -> Option<BotModel> {
    match b {
        Some(b) => Some(b@),
        None => None,
    }
}

/// A copy of an optional text.
pub fn copy_text(s: &Option<String>) -> (r: Option<String>)
    ensures
        r.deep_view() == s.deep_view(),
{
    match s {
        Some(t) => Some(t.clone()),
        None => None,
    }
}

impl Bot {
    /// A copy of this bot.
    pub fn duplicate(&self) -> (r: Bot)
        ensures
            r@ == self@,
    {
        Bot {
            name: self.name.clone(),
            category: copy_text(&self.category),
            url: copy_text(&self.url),
            producer: match &self.producer {
                Some(p) => Some(BotProducer { name: p.name.clone(), url: p.url.clone() }),
                None => None,
            },
        }
    }
}

/// The ordered bot rules.
pub struct BotList {
    pub rules: RuleList<Bot>,
}

/// The bot that the rules of `list` identify `ua` as.
pub open spec fn bot_of(list: BotList, ua: Seq<char>) -> Option<BotModel> {
    match first_hit_index(list.rules.pattern_texts(), ua) {
        Some(i) => Some(list.rules.items()[i]@),
        None => None,
    }
}

impl BotList {
    pub open spec fn wf(&self) -> bool {
        self.rules.wf()
    }

    /// A list without rules.
    pub fn new() -> (r: BotList)
        ensures
            r.wf(),
            r.rules.pattern_texts().len() == 0,
    {
        BotList { rules: RuleList::new() }
    }

    /// Appends a rule: a User-Agent matching `regex` is the bot `bot`.
    pub fn add_rule(&mut self, cache: &mut PatternCache, regex: &str, bot: Bot) -> (r: Result<(), DetectError>)
        requires
            old(self).wf(),
            old(cache).wf(),
        ensures
            final(cache).wf(),
            r is Ok <==> compiles(ua_pattern_text(regex@)),
            final(self).wf(),
            r is Ok ==> final(self).rules.pattern_texts() == old(self).rules.pattern_texts().push(
                ua_pattern_text(regex@),
            ) && final(self).rules.items() == old(self).rules.items().push(bot),
            r is Err ==> r->Err_0 == DetectError::InvalidPattern && *final(self) == *old(self),
    {
        let p = cache.compile(user_agent_pattern(regex).as_str())?;
        self.rules.push(p, bot);
        Ok(())
    }

    /// The bot described by the first rule that matches `ua`.
    pub fn lookup(&self, ua: &str) -> (r: Result<Option<Bot>, DetectError>)
        requires
            self.wf(),
        ensures
            r is Ok ==> bot_view(r->Ok_0) == bot_of(*self, ua@),
            r is Err <==> scan_fails(self.rules.pattern_texts(), ua@),
            r is Err ==> r->Err_0 == DetectError::MatchFailed,
    {
        match self.rules.first_match(ua) {
            Err(e) => Err(e),
            Ok(None) => Ok(None),
            Ok(Some((i, _))) => Ok(Some(self.rules.item(i).duplicate())),
        }
    }
}

/// Identifies `ua` as a bot by the rules of `bots`.
pub fn lookup_bot(bots: &BotList, ua: &str) -> (r: Result<Option<Bot>, DetectError>)
    requires
        bots.wf(),
    ensures
        r is Ok ==> bot_view(r->Ok_0) == bot_of(*bots, ua@),
        r is Err <==> scan_fails(bots.rules.pattern_texts(), ua@),
        r is Err ==> r->Err_0 == DetectError::MatchFailed,
{
    bots.lookup(ua)
}

} // verus!

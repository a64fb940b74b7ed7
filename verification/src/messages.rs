//! What the chart's legend speaks of, and in which language.

use vstd::prelude::*;

verus! {

/// The lines of the legend.
#[derive(Debug, Copy, Clone, PartialEq, Eq, Structural)]
pub enum MsgId {
    Recovered,
    Hospitalised,
    Deaths,
    Active,
    Cases,
    Incidence,
}

/// The languages that the legend is written in.
#[derive(Debug, Copy, Clone, PartialEq, Eq, Structural)]
pub enum Lang {
    De,
    En,
}

/// What a line of the legend calls its number, in a language.
pub open spec fn label_of(lang: Lang, msg: MsgId) -> Seq<char> {
    match lang {
        Lang::De => match msg {
            MsgId::Recovered => "Genesene"@,
            MsgId::Hospitalised => "Krankenhauseinweisungen"@,
            MsgId::Deaths => "Sterbefälle"@,
            MsgId::Active => "Active Fälle"@,
            MsgId::Cases => "Fälle"@,
            MsgId::Incidence => "Inzidenz"@,
        },
        Lang::En => match msg {
            MsgId::Recovered => "recovered"@,
            MsgId::Hospitalised => "hospitalised"@,
            MsgId::Deaths => "deaths"@,
            MsgId::Active => "active cases"@,
            MsgId::Cases => "total cases"@,
            MsgId::Incidence => "incidence"@,
        },
    }
}

/// The language that a two-letter code names.
pub open spec fn lang_of(code: Seq<char>) -> Option<Lang> {
    if code == seq!['d', 'e'] || code == seq!['D', 'E'] {
        Some(Lang::De)
    } else if code == seq!['e', 'n'] || code == seq!['E', 'N'] {
        Some(Lang::En)
    } else {
        None
    }
}

/// The language that a locale tag such as `de-DE` names: that of its first two
/// characters.
pub open spec fn lang_of_tag(tag: Seq<char>) -> Option<Lang> {
    if tag.len() >= 2 {
        lang_of(tag.take(2))
    } else {
        None
    }
}

/// The language of the first tag that names one.
pub open spec fn first_lang(tags: Seq<Seq<char>>) -> Option<Lang>
    decreases tags.len(),
{
    if tags.len() == 0 {
        None
    } else if lang_of_tag(tags.first()) is Some {
        lang_of_tag(tags.first())
    } else {
        first_lang(tags.drop_first())
    }
}

fn of_pair(first: char, second: char) -> (lang: Option<Lang>)
    ensures
        lang == lang_of(seq![first, second]),
{
    if (first == 'd' && second == 'e') || (first == 'D' && second == 'E') {
        Some(Lang::De)
    } else if (first == 'e' && second == 'n') || (first == 'E' && second == 'N') {
        Some(Lang::En)
    } else {
        assert(seq![first, second][0] == first);
        assert(seq![first, second][1] == second);
        None
    }
}

impl Lang {
    /// Names the number of a line of the legend in this language.
    pub fn label(&self, msg: MsgId) -> (label: &'static str)
        ensures
            label@ == label_of(*self, msg),
    {
        match self {
            Lang::De => match msg {
                MsgId::Recovered => "Genesene",
                MsgId::Hospitalised => "Krankenhauseinweisungen",
                MsgId::Deaths => "Sterbefälle",
                MsgId::Active => "Active Fälle",
                MsgId::Cases => "Fälle",
                MsgId::Incidence => "Inzidenz",
            },
            Lang::En => match msg {
                MsgId::Recovered => "recovered",
                MsgId::Hospitalised => "hospitalised",
                MsgId::Deaths => "deaths",
                MsgId::Active => "active cases",
                MsgId::Cases => "total cases",
                MsgId::Incidence => "incidence",
            },
        }
    }

    /// Reads a language code, in lower or in upper case.
    pub fn of(v: &str) -> (lang: Option<Lang>)
        ensures
            lang == lang_of(v@),
    {
        if v.unicode_len() != 2 {
            return None;
        }
        assert(v@ =~= seq![v@[0], v@[1]]);
        of_pair(v.get_char(0), v.get_char(1))
    }

    /// Reads the language of a locale tag off its first two characters.
    pub fn of_tag(tag: &str) -> (lang: Option<Lang>)
        ensures
            lang == lang_of_tag(tag@),
    {
        if tag.unicode_len() < 2 {
            return None;
        }
        assert(tag@.take(2) =~= seq![tag@[0], tag@[1]]);
        of_pair(tag.get_char(0), tag.get_char(1))
    }

    /// Picks the language of the user from the tags of the user's locales,
    /// the preferred one first.
    pub fn first_of(tags: &Vec<String>) -> (lang: Option<Lang>)
        ensures
            lang == first_lang(Seq::new(tags@.len(), |i: int| tags@[i]@)),
    {
        let ghost texts = Seq::new(tags@.len(), |i: int| tags@[i]@);
        let mut i: usize = 0;
        assert(texts.skip(0) =~= texts);
        while i < tags.len()
            invariant
                i <= tags.len(),
                texts == Seq::new(tags@.len(), |i: int| tags@[i]@),
                first_lang(texts) == first_lang(texts.skip(i as int)),
            decreases tags.len() - i,
        {
            let found = Lang::of_tag(tags[i].as_str());
            proof {
                let rest = texts.skip(i as int);
                assert(rest.first() == tags@[i as int]@);
                assert(rest.drop_first() =~= texts.skip(i + 1));
            }
            if found.is_some() {
                return found;
            }
            i += 1;
        }
        proof {
            assert(texts.skip(i as int).len() == 0);
        }
        None
    }
}

} // verus!

//! The identity of the person behind a service, and its text forms.
use vstd::prelude::*;
use crate::text::{chars_of, concat_str, str_eq, string_from_chars};

verus! {

/// The abstract value of a `Provider`.
pub enum ProviderView {
    Twitter(Seq<char>),
    Mastodon(Seq<char>, Seq<char>),
}

/// A person who provides a homo service.
#[derive(Debug, Clone)]
pub enum Provider {
    /// A Twitter user.
    Twitter(String),
    /// A Mastodon user.
    Mastodon { screen_name: String, domain: String },
}

impl View for Provider {
    type V = ProviderView;

    open spec fn view(&self) -> ProviderView {
        match self {
            Provider::Twitter(s) => ProviderView::Twitter(s@),
            Provider::Mastodon { screen_name, domain } => ProviderView::Mastodon(
                screen_name@,
                domain@,
            ),
        }
    }
}

/// The character separating the parts of an entity text.
pub open spec fn at_sign() -> char {
    '@'
}

/// `s` cut at every occurrence of `c`; always at least one part.
pub open spec fn split_on(s: Seq<char>, c: char) -> Seq<Seq<char>>
    decreases s.len(),
{
    if s.len() == 0 {
        seq![Seq::<char>::empty()]
    } else {
        let parts = split_on(s.drop_last(), c);
        if s.last() == c {
            parts.push(Seq::<char>::empty())
        } else {
            parts.update(parts.len() - 1, parts.last().push(s.last()))
        }
    }
}

/// The parts joined back together with `c` between them.
pub open spec fn join_with(parts: Seq<Seq<char>>, c: char) -> Seq<char>
    decreases parts.len(),
{
    if parts.len() == 0 {
        Seq::<char>::empty()
    } else if parts.len() == 1 {
        parts[0]
    } else {
        join_with(parts.drop_last(), c).push(c) + parts.last()
    }
}

/// The provider an entity text denotes: one part is a Twitter name, three parts
/// with an empty first one are `@name@domain`; anything else denotes none.
pub open spec fn parse_entity(s: Seq<char>) -> Option<ProviderView> {
    let parts = split_on(s, at_sign());
    if parts.len() == 1 {
        Some(ProviderView::Twitter(parts[0]))
    } else if parts.len() == 3 && parts[0].len() == 0 {
        Some(ProviderView::Mastodon(parts[1], parts[2]))
    } else {
        None
    }
}

/// The entity text of a provider.
pub open spec fn entity_text(p: ProviderView) -> Seq<char> {
    match p {
        ProviderView::Twitter(s) => s,
        ProviderView::Mastodon(sn, d) => seq!['@'] + sn + seq!['@'] + d,
    }
}

/// The cache key of a provider: the entity text behind a network tag.
pub open spec fn cache_key_text(p: ProviderView) -> Seq<char> {
    match p {
        ProviderView::Twitter(s) => "twitter:"@ + s,
        ProviderView::Mastodon(sn, d) => "mastodon:"@ + entity_text(p),
    }
}

/// The name of the network a provider belongs to.
pub open spec fn network_name(p: ProviderView) -> Seq<char> {
    match p {
        ProviderView::Twitter(_) => "twitter"@,
        ProviderView::Mastodon(_, _) => "mastodon"@,
    }
}

proof fn lemma_split_nonempty(s: Seq<char>, c: char)
    ensures
        split_on(s, c).len() >= 1,
    decreases s.len(),
{
    if s.len() > 0 {
        lemma_split_nonempty(s.drop_last(), c);
    }
}

/// Joining the parts of a split with the separator gives back the text.
pub proof fn lemma_join_split(s: Seq<char>, c: char)
    ensures
        split_on(s, c).len() >= 1,
        join_with(split_on(s, c), c) == s,
    decreases s.len(),
{
    lemma_split_nonempty(s, c);
    if s.len() > 0 {
        let init = s.drop_last();
        lemma_join_split(init, c);
        let parts = split_on(init, c);
        if s.last() == c {
            let np = parts.push(Seq::<char>::empty());
            assert(np.drop_last() =~= parts);
            assert(join_with(np, c) =~= s);
        } else {
            let np = parts.update(parts.len() - 1, parts.last().push(s.last()));
            if parts.len() == 1 {
                assert(join_with(np, c) =~= s);
            } else {
                let head = join_with(parts.drop_last(), c).push(c);
                assert(np.drop_last() =~= parts.drop_last());
                assert(np.last() == parts.last().push(s.last()));
                assert(join_with(parts, c) == head + parts.last());
                assert(join_with(np, c) == head + parts.last().push(s.last()));
                assert((head + parts.last()).push(s.last()) =~= head + parts.last().push(
                    s.last(),
                ));
            }
        }
    }
}

/// Parsing an entity text and formatting the provider again gives back the text,
/// for every text that parses.
pub proof fn lemma_entity_round_trip(s: Seq<char>)
    requires
        parse_entity(s) is Some,
    ensures
        entity_text(parse_entity(s)->0) == s,
{
    lemma_join_split(s, at_sign());
    let parts = split_on(s, at_sign());
    if parts.len() == 3 {
        let c = at_sign();
        assert(parts.drop_last().drop_last() =~= seq![parts[0]]);
        assert(parts.drop_last().last() == parts[1]);
        assert(join_with(parts.drop_last(), c) == join_with(seq![parts[0]], c).push(c)
            + parts[1]);
        assert(join_with(parts.drop_last(), c) =~= seq![c] + parts[1]);
        assert(join_with(parts, c) == join_with(parts.drop_last(), c).push(c) + parts[2]);
        assert(entity_text(parse_entity(s)->0) =~= s);
    }
}

/// The contents of a sequence of character vectors.
pub open spec fn views(v: Seq<Vec<char>>) -> Seq<Seq<char>> {
    v.map_values(|x: Vec<char>| x@)
}

/// Splits `s` at every occurrence of `c`.
pub fn split_chars(s: &[char], c: char) -> (r: Vec<Vec<char>>)
    ensures
        views(r@) == split_on(s@, c),
{
    let mut done: Vec<Vec<char>> = Vec::new();
    let mut cur: Vec<char> = Vec::new();
    let mut i: usize = 0;
    while i < s.len()
        invariant
            i <= s.len(),
            views(done@).push(cur@) == split_on(s@.subrange(0, i as int), c),
        decreases s.len() - i,
    {
        let ghost before = views(done@).push(cur@);
        let ch = s[i];
        assert(s@.subrange(0, i + 1).drop_last() =~= s@.subrange(0, i as int));
        if ch == c {
            done.push(cur);
            cur = Vec::new();
            assert(views(done@) =~= before);
            assert(views(done@).push(cur@) =~= before.push(Seq::<char>::empty()));
        } else {
            cur.push(ch);
            assert(views(done@) =~= before.drop_last());
            assert(views(done@).push(cur@) =~= before.update(
                before.len() - 1,
                before.last().push(ch),
            ));
        }
        i = i + 1;
    }
    assert(s@.subrange(0, s.len() as int) =~= s@);
    done.push(cur);
    assert(views(done@) =~= split_on(s@, c));
    done
}

impl Provider {
    /// Parses an entity text: `name` for Twitter, `@name@domain` for Mastodon.
    pub fn from_entity(entity_sn: &str) -> (r: Result<Provider, String>)
        ensures
            r is Ok <==> parse_entity(entity_sn@) is Some,
            r matches Ok(p) ==> parse_entity(entity_sn@) == Some(p@),
    {
        let cs = chars_of(entity_sn);
        let parts = split_chars(cs.as_slice(), '@');
        proof {
            lemma_join_split(entity_sn@, at_sign());
        }
        assert(views(parts@) == split_on(entity_sn@, at_sign()));
        assert(views(parts@)[0] == parts@[0]@);
        if parts.len() == 1 {
            Ok(Provider::Twitter(string_from_chars(parts[0].as_slice())))
        } else if parts.len() == 3 && parts[0].len() == 0 {
            assert(views(parts@)[1] == parts@[1]@);
            assert(views(parts@)[2] == parts@[2]@);
            Ok(
                Provider::Mastodon {
                    screen_name: string_from_chars(parts[1].as_slice()),
                    domain: string_from_chars(parts[2].as_slice()),
                },
            )
        } else {
            Err(String::from_str("Invalid screen name expression"))
        }
    }

    /// The entity text: the name for Twitter, `@name@domain` for Mastodon.
    pub fn to_entity_string(&self) -> (r: String)
        ensures
            r@ == entity_text(self@),
    {
        match self {
            Provider::Twitter(s) => s.clone(),
            Provider::Mastodon { screen_name, domain } => {
                let a = concat_str("@", screen_name.as_str());
                let b = concat_str(a.as_str(), "@");
                let r = concat_str(b.as_str(), domain.as_str());
                proof {
                    reveal_strlit("@");
                }
                assert(r@ =~= entity_text(self@));
                r
            },
        }
    }

    /// The key under which this provider's avatar is cached.
    pub fn to_cache_key(&self) -> (r: String)
        ensures
            r@ == cache_key_text(self@),
    {
        match self {
            Provider::Twitter(s) => concat_str("twitter:", s.as_str()),
            Provider::Mastodon { .. } => {
                let e = self.to_entity_string();
                concat_str("mastodon:", e.as_str())
            },
        }
    }

    /// The name of this provider's network.
    pub fn network(&self) -> (r: String)
        ensures
            r@ == network_name(self@),
    {
        match self {
            Provider::Twitter(_) => String::from_str("twitter"),
            Provider::Mastodon { .. } => String::from_str("mastodon"),
        }
    }

    /// A copy of this provider.
    pub fn duplicate(&self) -> (r: Provider)
        ensures
            r@ == self@,
    {
        match self {
            Provider::Twitter(s) => Provider::Twitter(s.clone()),
            Provider::Mastodon { screen_name, domain } => Provider::Mastodon {
                screen_name: screen_name.clone(),
                domain: domain.clone(),
            },
        }
    }

    /// Whether two providers are the same person on the same network.
    pub fn same_as(&self, other: &Provider) -> (r: bool)
        ensures
            r == (self@ == other@),
    {
        match self {
            Provider::Twitter(a) => match other {
                Provider::Twitter(b) => str_eq(a.as_str(), b.as_str()),
                _ => false,
            },
            Provider::Mastodon { screen_name: a, domain: d } => match other {
                Provider::Mastodon { screen_name: b, domain: e } => {
                    str_eq(a.as_str(), b.as_str()) && str_eq(d.as_str(), e.as_str())
                },
                _ => false,
            },
        }
    }
}

impl PartialEq for Provider {
    fn eq(&self, other: &Provider) -> (r: bool) {
        self.same_as(other)
    }
}

impl vstd::std_specs::cmp::PartialEqSpecImpl for Provider {
    open spec fn obeys_eq_spec() -> bool {
        true
    }

    open spec fn eq_spec(&self, other: &Provider) -> bool {
        self@ == other@
    }
}

impl Eq for Provider {

}

} // verus!

//! The three-part topic convention: `role/id/plugName`.
//!
//! A conforming wire topic is exactly three non-empty `/`-separated segments.
//! Subscribe-direction topics may use the single-level wildcard `+` for the
//! role and id positions.

use vstd::prelude::*;

use crate::errors::TetherError;
use crate::numfmt::push_char;

verus! {

/// How a string splits on `/`, mirroring `str::split('/')`: the result always
/// has one more segment than the string has separators, so the empty string
/// splits into one empty segment.
pub open spec fn split_slash(s: Seq<char>) -> Seq<Seq<char>>
    decreases s.len(),
{
    if s.len() == 0 {
        seq![Seq::<char>::empty()]
    } else if s.last() == '/' {
        split_slash(s.drop_last()).push(Seq::<char>::empty())
    } else {
        let rest = split_slash(s.drop_last());
        rest.update(rest.len() - 1, rest.last().push(s.last()))
    }
}

/// A segment that may stand between separators: it holds no `/` itself.
pub open spec fn slash_free(s: Seq<char>) -> bool {
    forall|i: int| 0 <= i < s.len() ==> s[i] != '/'
}

/// A wire string conforms to the convention when it splits into exactly three
/// non-empty segments.
pub open spec fn is_three_part(s: Seq<char>) -> bool {
    &&& split_slash(s).len() == 3
    &&& split_slash(s)[0].len() > 0
    &&& split_slash(s)[1].len() > 0
    &&& split_slash(s)[2].len() > 0
}

pub proof fn lemma_split_slash_len(s: Seq<char>)
    ensures
        split_slash(s).len() >= 1,
    decreases s.len(),
{
    if s.len() > 0 {
        lemma_split_slash_len(s.drop_last());
    }
}

/// A slash-free string splits into just itself.
pub proof fn lemma_split_slash_free(s: Seq<char>)
    requires
        slash_free(s),
    ensures
        split_slash(s) =~~= seq![s],
    decreases s.len(),
{
    if s.len() == 0 {
        assert(split_slash(s) =~~= seq![s]);
    } else {
        assert(slash_free(s.drop_last()));
        lemma_split_slash_free(s.drop_last());
        assert(s.drop_last().push(s.last()) =~= s);
    }
}

/// Appending a slash-free tail extends the last segment and nothing else.
pub proof fn lemma_split_slash_append_free(t: Seq<char>, c: Seq<char>)
    requires
        slash_free(c),
    ensures
        split_slash(t + c) =~~= split_slash(t).update(
            split_slash(t).len() - 1,
            split_slash(t).last() + c,
        ),
    decreases c.len(),
{
    lemma_split_slash_len(t);
    if c.len() == 0 {
        assert(t + c =~= t);
        assert(split_slash(t).last() + c =~= split_slash(t).last());
        assert(split_slash(t).update(split_slash(t).len() - 1, split_slash(t).last() + c)
            =~~= split_slash(t));
    } else {
        assert(slash_free(c.drop_last()));
        lemma_split_slash_append_free(t, c.drop_last());
        let u = t + c.drop_last();
        assert(u + seq![c.last()] =~= t + c);
        assert((t + c).drop_last() =~= u);
        assert((t + c).last() == c.last());
        assert(c.last() != '/');
        let su = split_slash(u);
        lemma_split_slash_len(u);
        assert(split_slash(t + c) =~~= su.update(su.len() - 1, su.last().push(c.last())));
        assert(su.last() =~= split_slash(t).last() + c.drop_last());
        assert(split_slash(t).last() + c.drop_last() + seq![c.last()] =~= split_slash(t).last() + c);
        assert(su.last().push(c.last()) =~= split_slash(t).last() + c);
    }
}

/// Appending a separator opens a fresh, empty last segment.
pub proof fn lemma_split_slash_append_sep(t: Seq<char>)
    ensures
        split_slash(t + seq!['/']) =~~= split_slash(t).push(Seq::<char>::empty()),
{
    assert((t + seq!['/']).drop_last() =~= t);
    assert((t + seq!['/']).last() == '/');
}

/// Joining three slash-free segments with `/` splits back into those segments.
/// With all three non-empty, the joined string conforms to the convention.
pub proof fn lemma_join_three_splits(role: Seq<char>, id: Seq<char>, plug: Seq<char>)
    requires
        slash_free(role),
        slash_free(id),
        slash_free(plug),
    ensures
        split_slash(role + seq!['/'] + id + seq!['/'] + plug) =~~= seq![role, id, plug],
        (role.len() > 0 && id.len() > 0 && plug.len() > 0) ==> is_three_part(
            role + seq!['/'] + id + seq!['/'] + plug,
        ),
{
    lemma_split_slash_free(role);
    lemma_split_slash_append_sep(role);
    assert(split_slash(role + seq!['/']) =~~= seq![role, Seq::<char>::empty()]);
    lemma_split_slash_append_free(role + seq!['/'], id);
    assert(split_slash(role + seq!['/'] + id) =~~= seq![role, id]);
    lemma_split_slash_append_sep(role + seq!['/'] + id);
    assert(split_slash(role + seq!['/'] + id + seq!['/']) =~~= seq![role, id, Seq::<char>::empty()]);
    lemma_split_slash_append_free(role + seq!['/'] + id + seq!['/'], plug);
    assert(split_slash(role + seq!['/'] + id + seq!['/'] + plug) =~~= seq![role, id, plug]);
}

/// Splits a topic string on `/`, exactly as `str::split('/')` would.
pub fn split_topic(s: &str) -> (parts: Vec<String>)
    ensures
        parts@.map_values(|p: String| p@) == split_slash(s@),
{
    let n = s.unicode_len();
    let mut parts: Vec<String> = Vec::new();
    let mut cur = String::new();
    let mut i: usize = 0;
    while i < n
        invariant
            i <= n,
            n == s@.len(),
            split_slash(s@.take(i as int)) =~~= parts@.map_values(|p: String| p@).push(cur@),
        decreases n - i,
    {
        let c = s.get_char(i);
        proof {
            assert(s@.take(i + 1 as int).drop_last() =~= s@.take(i as int));
            assert(s@.take(i + 1 as int).last() == s@[i as int]);
            lemma_split_slash_len(s@.take(i as int));
        }
        if c == '/' {
            let ghost prev_parts = parts@.map_values(|p: String| p@);
            let ghost prev_cur = cur@;
            parts.push(cur);
            cur = String::new();
            proof {
                assert(split_slash(s@.take(i + 1 as int)) =~~= split_slash(
                    s@.take(i as int),
                ).push(Seq::<char>::empty()));
                assert(parts@.map_values(|p: String| p@) =~= prev_parts.push(prev_cur));
                assert(split_slash(s@.take(i + 1 as int)) =~~= parts@.map_values(
                    |p: String| p@,
                ).push(cur@));
            }
        } else {
            push_char(&mut cur, c);
            proof {
                let su = split_slash(s@.take(i as int));
                assert(split_slash(s@.take(i + 1 as int)) =~~= su.update(
                    su.len() - 1,
                    su.last().push(s@[i as int]),
                ));
                assert(su.last() == cur@.drop_last());
                assert(su.last().push(s@[i as int]) =~= cur@);
                assert(split_slash(s@.take(i + 1 as int)) =~~= parts@.map_values(
                    |p: String| p@,
                ).push(cur@));
            }
        }
        i = i + 1;
    }
    proof {
        assert(s@.take(n as int) =~= s@);
    }
    parts.push(cur);
    proof {
        assert(parts@.map_values(|p: String| p@) =~= split_slash(s@));
    }
    parts
}

/// Joins `role/id/plugName` into a wire topic string.
pub fn build_topic(role: &str, id: &str, plug_name: &str) -> (r: String)
    ensures
        r@ == role@ + seq!['/'] + id@ + seq!['/'] + plug_name@,
{
    let mut s = role.to_owned();
    proof {
        reveal_strlit("/");
    }
    s.append("/");
    s.append(id);
    s.append("/");
    s.append(plug_name);
    proof {
        assert(s@ =~= role@ + seq!['/'] + id@ + seq!['/'] + plug_name@);
    }
    s
}

/// The default subscribe topic for a plug: both the role and the id are the
/// single-level wildcard, so `name` becomes `+/+/name`.
pub fn default_subscribe_topic(plug_name: &str) -> (r: String)
    ensures
        r@ == seq!['+', '/', '+', '/'] + plug_name@,
{
    proof {
        reveal_strlit("+/+/");
    }
    let mut s = "+/+/".to_owned();
    s.append(plug_name);
    proof {
        assert(s@ =~= seq!['+', '/', '+', '/'] + plug_name@);
    }
    s
}

/// An ordered triple `(role, id, plugName)` of topic segments. Subscribe
/// topics may carry the wildcard `+` in the role or id position; materialized
/// to a wire string the triple is the three segments joined by `/`.
#[derive(Debug)]
pub struct ThreePartTopic {
    role: String,
    id: String,
    plug_name: String,
}

impl ThreePartTopic {
    /// The role segment (position 0 on the wire).
    pub closed spec fn role_spec(&self) -> Seq<char> {
        self.role@
    }

    /// The id segment (position 1 on the wire).
    pub closed spec fn id_spec(&self) -> Seq<char> {
        self.id@
    }

    /// The plug-name segment (position 2 on the wire).
    pub closed spec fn plug_name_spec(&self) -> Seq<char> {
        self.plug_name@
    }

    pub fn role(&self) -> (r: &String)
        ensures
            r@ == self.role_spec(),
    {
        &self.role
    }

    pub fn id(&self) -> (r: &String)
        ensures
            r@ == self.id_spec(),
    {
        &self.id
    }

    pub fn plug_name(&self) -> (r: &String)
        ensures
            r@ == self.plug_name_spec(),
    {
        &self.plug_name
    }

    /// A subscribe-direction topic: the role and the id default to the
    /// single-level wildcard `+` when not overridden; the plug name is fixed
    /// and never wildcarded.
    pub fn new_for_subscribe(
        role_override: Option<String>,
        id_override: Option<String>,
        plug_name: &str,
    ) -> (r: ThreePartTopic)
        ensures
            r.role_spec() == match role_override {
                Some(role) => role@,
                None => seq!['+'],
            },
            r.id_spec() == match id_override {
                Some(id) => id@,
                None => seq!['+'],
            },
            r.plug_name_spec() == plug_name@,
    {
        proof {
            reveal_strlit("+");
        }
        ThreePartTopic {
            role: match role_override {
                Some(role) => role,
                None => "+".to_owned(),
            },
            id: match id_override {
                Some(id) => id,
                None => "+".to_owned(),
            },
            plug_name: plug_name.to_owned(),
        }
    }

    /// A publish-direction topic: the role and the id default to the agent's
    /// own identity, since publishing needs a concrete topic, never a wildcard.
    pub fn new_for_publish(
        role_override: Option<String>,
        id_override: Option<String>,
        plug_name: &str,
        agent_role: &str,
        agent_id: &str,
    ) -> (r: ThreePartTopic)
        ensures
            r.role_spec() == match role_override {
                Some(role) => role@,
                None => agent_role@,
            },
            r.id_spec() == match id_override {
                Some(id) => id@,
                None => agent_id@,
            },
            r.plug_name_spec() == plug_name@,
    {
        ThreePartTopic {
            role: match role_override {
                Some(role) => role,
                None => agent_role.to_owned(),
            },
            id: match id_override {
                Some(id) => id,
                None => agent_id.to_owned(),
            },
            plug_name: plug_name.to_owned(),
        }
    }

    /// Materializes the triple as its wire string: the three segments joined
    /// by `/`.
    pub fn to_wire_string(&self) -> (r: String)
        ensures
            r@ == self.role_spec() + seq!['/'] + self.id_spec() + seq!['/']
                + self.plug_name_spec(),
    {
        build_topic(self.role.as_str(), self.id.as_str(), self.plug_name.as_str())
    }
}

/// Either a topic that conforms to the three-part convention, or a fully
/// custom topic string that deliberately bypasses it (a raw wildcard such as
/// `#`, for instance).
#[derive(Debug)]
pub enum TetherOrCustomTopic {
    Tether(ThreePartTopic),
    Custom(String),
}

impl TetherOrCustomTopic {
    /// The plug name a received message is filed under: the third segment of
    /// a conforming topic, or the word `unknown` for a custom one.
    pub fn plug_name_string(&self) -> (r: String)
        ensures
            match self {
                TetherOrCustomTopic::Tether(t) => r@ == t.plug_name_spec(),
                TetherOrCustomTopic::Custom(_) => r@ == "unknown"@,
            },
    {
        match self {
            TetherOrCustomTopic::Tether(t) => t.plug_name().clone(),
            TetherOrCustomTopic::Custom(_) => "unknown".to_owned(),
        }
    }
}

/// Parses a wire topic against the convention: succeeds iff the string splits
/// into exactly three non-empty `/`-separated segments, and recovers the
/// segments by position; fails with `MalformedTopic` otherwise.
pub fn parse(topic: &str) -> (r: Result<ThreePartTopic, TetherError>)
    ensures
        match r {
            Ok(t) => is_three_part(topic@) && t.role_spec() == split_slash(topic@)[0]
                && t.id_spec() == split_slash(topic@)[1] && t.plug_name_spec() == split_slash(
                topic@,
            )[2],
            Err(e) => e == TetherError::MalformedTopic && !is_three_part(topic@),
        },
{
    let mut parts = split_topic(topic);
    if parts.len() != 3 {
        return Err(TetherError::MalformedTopic);
    }
    let plug_name = parts.pop().unwrap();
    let id = parts.pop().unwrap();
    let role = parts.pop().unwrap();
    if role.as_str().is_empty() || id.as_str().is_empty() || plug_name.as_str().is_empty() {
        return Err(TetherError::MalformedTopic);
    }
    Ok(ThreePartTopic { role, id, plug_name })
}

/// The plug-name position (segment 2) of a topic, when the split has one;
/// the topic need not conform to the convention beyond having the segment.
pub fn parse_plug_name(topic: &str) -> (r: Option<String>)
    ensures
        match r {
            Some(s) => split_slash(topic@).len() > 2 && s@ == split_slash(topic@)[2],
            None => split_slash(topic@).len() <= 2,
        },
{
    let mut parts = split_topic(topic);
    if parts.len() > 2 {
        let s = parts.remove(2);
        Some(s)
    } else {
        None
    }
}

/// The id position (segment 1) of a topic, when the split has one.
pub fn parse_agent_id(topic: &str) -> (r: Option<String>)
    ensures
        match r {
            Some(s) => split_slash(topic@).len() > 1 && s@ == split_slash(topic@)[1],
            None => split_slash(topic@).len() <= 1,
        },
{
    let mut parts = split_topic(topic);
    if parts.len() > 1 {
        let s = parts.remove(1);
        Some(s)
    } else {
        None
    }
}

/// The role position (segment 0) of a topic. A split always has a first
/// segment, so this always returns it.
pub fn parse_agent_role(topic: &str) -> (r: Option<String>)
    ensures
        match r {
            Some(s) => s@ == split_slash(topic@)[0],
            None => false,
        },
{
    proof {
        lemma_split_slash_len(topic@);
    }
    let mut parts = split_topic(topic);
    let s = parts.remove(0);
    Some(s)
}

} // verus!

use vstd::prelude::*;

use crate::text::str_equals;

verus! {

/// A message for the broker: where to publish it and what.
pub struct OutboundMessage {
    pub topic: String,
    pub payload: String,
}

/// What a command published to a device topic asks for.
#[derive(Debug, Clone, Copy, PartialEq, Eq, Structural)]
pub enum TopicAction {
    /// Take a frame (`devices/{camera_id}/expose`).
    Expose,
    /// Set a property (`devices/{camera_id}/set`).
    Update,
}

/// A property a client may set on a camera device.
#[derive(Debug, Clone, Copy, PartialEq, Eq, Structural)]
pub enum PropertyTarget {
    Gain,
    Offset,
    Exposure,
    Bin,
}

/// Whether `s` holds no `/`.
pub open spec fn slash_free(s: Seq<char>) -> bool {
    forall|i: int| 0 <= i < s.len() ==> s[i] != '/'
}

/// The position of the first `/` in `s`, or -1 where there is none.
pub open spec fn first_slash(s: Seq<char>) -> int
    decreases s.len(),
{
    if s.len() == 0 {
        -1
    } else if s[0] == '/' {
        0
    } else {
        let r = first_slash(s.drop_first());
        if r < 0 {
            -1
        } else {
            r + 1
        }
    }
}

/// The camera id and the action of a topic of the form
/// `devices/{camera_id}/{action}`, read as splitting the topic at its first
/// two `/`: the camera id holds no `/`, the action may.
pub open spec fn device_topic_parts(t: Seq<char>) -> Option<(Seq<char>, Seq<char>)> {
    let i = first_slash(t);
    if i < 0 {
        None
    } else {
        let rest = t.skip(i + 1);
        let j = first_slash(rest);
        if j < 0 || t.take(i) != "devices"@ {
            None
        } else {
            Some((rest.take(j), rest.skip(j + 1)))
        }
    }
}

/// The topic under which the state of the camera `camera_id` is published.
pub open spec fn device_topic_text(camera_id: Seq<char>) -> Seq<char> {
    "devices/"@ + camera_id
}

proof fn lemma_first_slash(s: Seq<char>)
    ensures
        -1 <= first_slash(s) < s.len(),
        first_slash(s) == -1 ==> slash_free(s),
        first_slash(s) >= 0 ==> s[first_slash(s)] == '/' && slash_free(s.take(first_slash(s))),
    decreases s.len(),
{
    if s.len() > 0 && s[0] != '/' {
        lemma_first_slash(s.drop_first());
        let r = first_slash(s.drop_first());
        if r >= 0 {
            assert(s.take(r + 1) =~= seq![s[0]] + s.drop_first().take(r));
        } else {
            assert forall|i: int| 0 <= i < s.len() implies s[i] != '/' by {
                if i > 0 {
                    assert(s[i] == s.drop_first()[i - 1]);
                }
            }
        }
    }
}

proof fn lemma_first_slash_at(s: Seq<char>, i: int)
    requires
        0 <= i <= s.len(),
        i == s.len() || s[i] == '/',
        forall|k: int| 0 <= k < i ==> s[k] != '/',
    ensures
        first_slash(s) == (if i == s.len() {
            -1
        } else {
            i
        }),
    decreases i,
{
    if i > 0 {
        lemma_first_slash_at(s.drop_first(), i - 1);
    }
}

/// Splitting a command topic built for a camera id without `/` gives back
/// that camera id and the action, whatever the action holds; and a topic
/// splits only where it has that form.
pub proof fn lemma_device_topic_round_trip(camera_id: Seq<char>, action: Seq<char>, t: Seq<char>)
    ensures
        slash_free(camera_id) ==> device_topic_parts(
            device_topic_text(camera_id) + "/"@ + action,
        ) == Some((camera_id, action)),
        device_topic_parts(t) matches Some(p) ==> slash_free(p.0) && t == device_topic_text(p.0)
            + "/"@ + p.1,
{
    reveal_strlit("devices/");
    reveal_strlit("devices");
    reveal_strlit("/");
    if slash_free(camera_id) {
        let t2 = device_topic_text(camera_id) + "/"@ + action;
        lemma_first_slash_at(t2, 7);
        let rest = t2.skip(8);
        assert(rest =~= camera_id + "/"@ + action);
        lemma_first_slash_at(rest, camera_id.len() as int);
        assert(t2.take(7) =~= "devices"@);
        assert(rest.take(camera_id.len() as int) =~= camera_id);
        assert(rest.skip(camera_id.len() as int + 1) =~= action);
    }
    if device_topic_parts(t) is Some {
        lemma_first_slash(t);
        let i = first_slash(t);
        let rest = t.skip(i + 1);
        lemma_first_slash(rest);
        let j = first_slash(rest);
        assert("devices"@.len() == 7);
        assert(i == 7);
        assert(rest.take(j) =~= rest.take(j));
        assert(t =~= t.take(i) + "/"@ + rest.take(j) + "/"@ + rest.skip(j + 1));
        assert(t.take(i) + "/"@ =~= "devices/"@);
    }
}

/// Returns the topic under which the state of the camera `camera_id` is
/// published: `devices/{camera_id}`.
pub fn device_topic(camera_id: &str) -> (t: String)
    ensures
        t@ == device_topic_text(camera_id@),
        t@ == "devices/"@ + camera_id@,
{
    let mut t = String::from_str("devices/");
    t.append(camera_id);
    t
}

/// Splits a topic of the form `devices/{camera_id}/{action}` at its first
/// two `/` into the camera id and the action; returns `None` for a topic of
/// any other form.
pub fn split_device_topic(topic: &str) -> (res: Option<(String, String)>)
    ensures
        res is Some <==> device_topic_parts(topic@) is Some,
        res matches Some(p) ==> (p.0@, p.1@) == device_topic_parts(topic@)->0,
{
    let n = topic.unicode_len();
    let mut i: usize = 0;
    while i < n && topic.get_char(i) != '/'
        invariant
            n == topic@.len(),
            i <= n,
            forall|k: int| 0 <= k < i ==> topic@[k] != '/',
        decreases n - i,
    {
        i = i + 1;
    }
    proof {
        lemma_first_slash_at(topic@, i as int);
    }
    if i == n {
        return None;
    }
    let mut j: usize = i + 1;
    while j < n && topic.get_char(j) != '/'
        invariant
            n == topic@.len(),
            i < n,
            i + 1 <= j <= n,
            forall|k: int| i + 1 <= k < j ==> topic@[k] != '/',
        decreases n - j,
    {
        j = j + 1;
    }
    let ghost rest = topic@.skip(i + 1);
    proof {
        assert forall|k: int| 0 <= k < j - (i + 1) implies rest[k] != '/' by {
            assert(rest[k] == topic@[k + i + 1]);
        }
        if j < n {
            assert(rest[j - (i + 1)] == topic@[j as int]);
        }
        lemma_first_slash_at(rest, j - (i + 1));
    }
    if j == n {
        return None;
    }
    let first = topic.substring_char(0, i);
    assert(first@ =~= topic@.take(i as int));
    if !str_equals(first, "devices") {
        return None;
    }
    let id = String::from_str(topic.substring_char(i + 1, j));
    let action = String::from_str(topic.substring_char(j + 1, n));
    assert(id@ =~= rest.take(j - (i + 1)));
    assert(action@ =~= rest.skip(j - (i + 1) + 1));
    Some((id, action))
}

/// Reads the action part of a command topic: `expose` or `set`; any other
/// action is not understood.
pub fn parse_action(action: &str) -> (res: Option<TopicAction>)
    ensures
        res == Some(TopicAction::Expose) <==> action@ == "expose"@,
        res == Some(TopicAction::Update) <==> action@ == "set"@,
        res is None <==> action@ != "expose"@ && action@ != "set"@,
{
    proof {
        reveal_strlit("expose");
        reveal_strlit("set");
        assert("expose"@.len() == 6);
        assert("set"@.len() == 3);
    }
    if str_equals(action, "expose") {
        Some(TopicAction::Expose)
    } else if str_equals(action, "set") {
        Some(TopicAction::Update)
    } else {
        None
    }
}

/// Reads the name of a property a client asks to set: `gain`, `offset`,
/// `exposure` or `bin`; any other name is invalid.
pub fn property_target(name: &str) -> (res: Option<PropertyTarget>)
    ensures
        res == Some(PropertyTarget::Gain) <==> name@ == "gain"@,
        res == Some(PropertyTarget::Offset) <==> name@ == "offset"@,
        res == Some(PropertyTarget::Exposure) <==> name@ == "exposure"@,
        res == Some(PropertyTarget::Bin) <==> name@ == "bin"@,
{
    proof {
        reveal_strlit("gain");
        reveal_strlit("offset");
        reveal_strlit("exposure");
        reveal_strlit("bin");
        assert("gain"@.len() == 4);
        assert("offset"@.len() == 6);
        assert("exposure"@.len() == 8);
        assert("bin"@.len() == 3);
    }
    if str_equals(name, "gain") {
        Some(PropertyTarget::Gain)
    } else if str_equals(name, "offset") {
        Some(PropertyTarget::Offset)
    } else if str_equals(name, "exposure") {
        Some(PropertyTarget::Exposure)
    } else if str_equals(name, "bin") {
        Some(PropertyTarget::Bin)
    } else {
        None
    }
}

} // verus!

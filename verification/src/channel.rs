//! Channels: one notification stream each, named by an id that the client
//! makes up and bound, once the service has registered it, to a delivery
//! endpoint. The key material under which the channel's notifications are
//! opened lives and dies with the channel.

use vstd::prelude::*;
use vstd::string::StringExecFns;
use crate::keys::{KeyMaterial, KeyMaterialView};

verus! {

/// Length of a channel id in its textual form.
pub const CHANNEL_ID_LEN: usize = 36;

/// Whether a character is a digit of lower-case hexadecimal.
pub open spec fn is_lower_hex(c: char) -> bool {
    ('0' <= c && c <= '9') || ('a' <= c && c <= 'f')
}

/// Whether position `i` of a channel id holds a hyphen.
pub open spec fn is_hyphen_position(i: int) -> bool {
    i == 8 || i == 13 || i == 18 || i == 23
}

/// Whether a text has the form of a channel id: 128 bits in hexadecimal,
/// grouped 8-4-4-4-12 by hyphens.
pub open spec fn is_channel_id(text: Seq<char>) -> bool {
    &&& text.len() == CHANNEL_ID_LEN
    &&& forall|i: int|
        0 <= i < CHANNEL_ID_LEN ==> if is_hyphen_position(i) {
            #[trigger] text[i] == '-'
        } else {
            is_lower_hex(text[i])
        }
}

/// Draws a random id with `uuid::Uuid::new_v4` and writes it with
/// `to_string`.
///
/// Trusted: whatever was drawn is written as 32 lower-case hexadecimal
/// digits with hyphens after the 8th, 12th, 16th and 20th.
#[verifier::external_body]
fn random_uuid() -> (text: String)
    ensures
        is_channel_id(text@),
{
    uuid::Uuid::new_v4().to_string()
}

/// A fresh channel id.
pub fn new_channel_id() -> (text: String)
    ensures
        is_channel_id(text@),
{
    random_uuid()
}

/// A registered channel.
pub struct Channel {
    pub channel_id: String,
    pub endpoint: String,
    pub keys: KeyMaterial,
}

/// What a channel is bound to: its delivery endpoint and its key material.
pub ghost struct ChannelView {
    pub endpoint: Seq<char>,
    pub keys: KeyMaterialView,
}

impl View for Channel {
    type V = ChannelView;

    open spec fn view(&self) -> ChannelView {
        ChannelView { endpoint: self.endpoint@, keys: self.keys@ }
    }
}

/// The channels that a session has registered, keyed by id: no two of them
/// share one.
pub struct ChannelSet {
    channels: Vec<Channel>,
}

/// Whether no two channels of a sequence share an id.
pub open spec fn distinct_ids(channels: Seq<Channel>) -> bool {
    forall|i: int, j: int|
        0 <= i < j < channels.len() ==> (#[trigger] channels[i]).channel_id@
            != (#[trigger] channels[j]).channel_id@
}

/// Whether the channel at `i` has the given id.
pub open spec fn has_id(channels: Seq<Channel>, i: int, channel_id: Seq<char>) -> bool {
    0 <= i < channels.len() && channels[i].channel_id@ == channel_id
}

/// The channels of a sequence, by id.
pub open spec fn channels_by_id(channels: Seq<Channel>) -> Map<Seq<char>, ChannelView> {
    Map::new(
        |channel_id: Seq<char>| exists|i: int| has_id(channels, i, channel_id),
        |channel_id: Seq<char>| channels[choose|i: int| has_id(channels, i, channel_id)]@,
    )
}

impl View for ChannelSet {
    type V = Map<Seq<char>, ChannelView>;

    closed spec fn view(&self) -> Map<Seq<char>, ChannelView> {
        channels_by_id(self.channels@)
    }
}

impl ChannelSet {
    #[verifier::type_invariant]
    spec fn inv(self) -> bool {
        distinct_ids(self.channels@)
    }

    /// No channels.
    pub fn new() -> (set: ChannelSet)
        ensures
            set@ == Map::<Seq<char>, ChannelView>::empty(),
    {
        let set = ChannelSet { channels: Vec::new() };
        assert(set@ =~= Map::<Seq<char>, ChannelView>::empty());
        set
    }

    /// The number of channels.
    pub fn len(&self) -> (n: usize)
        ensures
            self@.dom().finite(),
            n == self@.len(),
    {
        proof {
            use_type_invariant(self);
            lemma_channels_len(self.channels@);
        }
        self.channels.len()
    }

    /// Where the channel of the given id stands, if it is there.
    fn position(&self, channel_id: &str) -> (r: Option<usize>)
        ensures
            match r {
                Some(i) => has_id(self.channels@, i as int, channel_id@),
                None => forall|i: int| !has_id(self.channels@, i, channel_id@),
            },
    {
        let wanted = String::from_str(channel_id);
        let mut i: usize = 0;
        while i < self.channels.len()
            invariant
                i <= self.channels@.len(),
                wanted@ == channel_id@,
                forall|k: int| 0 <= k < i ==> !has_id(self.channels@, k, channel_id@),
            decreases self.channels@.len() - i,
        {
            if self.channels[i].channel_id == wanted {
                return Some(i);
            }
            i += 1;
        }
        None
    }

    /// The channel of the given id, if it is registered.
    pub fn get(&self, channel_id: &str) -> (r: Option<&Channel>)
        ensures
            match r {
                Some(channel) => self@.contains_key(channel_id@) && self@[channel_id@]
                    == channel@ && channel.channel_id@ == channel_id@,
                None => !self@.contains_key(channel_id@),
            },
    {
        proof {
            use_type_invariant(self);
        }
        match self.position(channel_id) {
            Some(i) => {
                proof {
                    lemma_channel_at(self.channels@, i as int);
                }
                Some(&self.channels[i])
            },
            None => None,
        }
    }

    /// Adds a channel. A channel of the same id that was there before is
    /// replaced; every other channel stays as it was.
    pub fn insert(&mut self, channel: Channel)
        ensures
            final(self)@ == old(self)@.insert(channel.channel_id@, channel@),
    {
        proof {
            use_type_invariant(&*self);
        }
        let ghost before = self.channels@;
        let position = self.position(channel.channel_id.as_str());
        let mut channels: Vec<Channel> = Vec::new();
        core::mem::swap(&mut channels, &mut self.channels);
        match position {
            Some(i) => {
                channels.set(i, channel);
                proof {
                    lemma_replaced(before, channels@, i as int);
                }
            },
            None => {
                channels.push(channel);
                proof {
                    assert(channels@.drop_last() =~= before);
                    lemma_appended(before, channels@);
                }
            },
        }
        self.channels = channels;
    }
}

/// In a sequence without shared ids, the channel that the map holds for
/// the id at `i` is the channel at `i`.
pub proof fn lemma_channel_at(channels: Seq<Channel>, i: int)
    requires
        distinct_ids(channels),
        0 <= i < channels.len(),
    ensures
        channels_by_id(channels).contains_key(channels[i].channel_id@),
        channels_by_id(channels)[channels[i].channel_id@] == channels[i]@,
{
    let id = channels[i].channel_id@;
    assert(has_id(channels, i, id));
    let k = choose|k: int| has_id(channels, k, id);
    if k < i {
        assert(channels[k].channel_id@ != channels[i].channel_id@);
    } else if i < k {
        assert(channels[i].channel_id@ != channels[k].channel_id@);
    }
}

/// Putting a channel in the place of one with the same id is an insertion
/// into the map, and shares no id.
proof fn lemma_replaced(before: Seq<Channel>, after: Seq<Channel>, i: int)
    requires
        distinct_ids(before),
        0 <= i < before.len(),
        after == before.update(i, after[i]),
        after[i].channel_id@ == before[i].channel_id@,
    ensures
        distinct_ids(after),
        channels_by_id(after) == channels_by_id(before).insert(after[i].channel_id@, after[i]@),
{
    let id = after[i].channel_id@;
    assert forall|a: int, b: int| 0 <= a < b < after.len() implies (#[trigger] after[a]).channel_id@
        != (#[trigger] after[b]).channel_id@ by {
        assert(before[a].channel_id@ != before[b].channel_id@);
    }
    let left = channels_by_id(after);
    let right = channels_by_id(before).insert(id, after[i]@);
    assert forall|key: Seq<char>| left.contains_key(key) == right.contains_key(key) by {
        if exists|k: int| has_id(after, k, key) {
            let k = choose|k: int| has_id(after, k, key);
            assert(has_id(before, k, key));
        }
        if exists|k: int| has_id(before, k, key) {
            let k = choose|k: int| has_id(before, k, key);
            assert(has_id(after, k, key));
        }
        if key == id {
            assert(has_id(after, i, key));
        }
    }
    assert forall|key: Seq<char>| left.contains_key(key) implies left[key] == right[key] by {
        let k = choose|k: int| has_id(after, k, key);
        lemma_channel_at(after, k);
        if key != id {
            assert(has_id(before, k, key));
            lemma_channel_at(before, k);
        } else {
            lemma_channel_at(after, i);
        }
    }
    assert(left =~= right);
}

/// Appending a channel whose id is new is an insertion into the map, and
/// shares no id.
proof fn lemma_appended(before: Seq<Channel>, after: Seq<Channel>)
    requires
        distinct_ids(before),
        after.len() == before.len() + 1,
        after.drop_last() == before,
        forall|i: int| !has_id(before, i, after.last().channel_id@),
    ensures
        distinct_ids(after),
        channels_by_id(after) == channels_by_id(before).insert(
            after.last().channel_id@,
            after.last()@,
        ),
{
    let last = before.len() as int;
    let id = after[last].channel_id@;
    assert(after.last() == after[last]);
    assert forall|k: int| 0 <= k < last implies after[k] == before[k] by {
        assert(after.drop_last()[k] == after[k]);
    }
    assert forall|a: int, b: int| 0 <= a < b < after.len() implies (#[trigger] after[a]).channel_id@
        != (#[trigger] after[b]).channel_id@ by {
        if b < last {
            assert(before[a].channel_id@ != before[b].channel_id@);
        } else {
            assert(!has_id(before, a, id));
        }
    }
    let left = channels_by_id(after);
    let right = channels_by_id(before).insert(id, after[last]@);
    assert forall|key: Seq<char>| left.contains_key(key) == right.contains_key(key) by {
        if exists|k: int| has_id(after, k, key) {
            let k = choose|k: int| has_id(after, k, key);
            if k < last {
                assert(has_id(before, k, key));
            }
        }
        if exists|k: int| has_id(before, k, key) {
            let k = choose|k: int| has_id(before, k, key);
            assert(has_id(after, k, key));
        }
        if key == id {
            assert(has_id(after, last, key));
        }
    }
    assert forall|key: Seq<char>| left.contains_key(key) implies left[key] == right[key] by {
        let k = choose|k: int| has_id(after, k, key);
        lemma_channel_at(after, k);
        if key != id {
            assert(has_id(before, k, key));
            lemma_channel_at(before, k);
        } else {
            lemma_channel_at(after, last);
        }
    }
    assert(left =~= right);
}

/// A sequence without shared ids holds as many channels as its map has
/// keys.
pub proof fn lemma_channels_len(channels: Seq<Channel>)
    requires
        distinct_ids(channels),
    ensures
        channels_by_id(channels).dom().finite(),
        channels_by_id(channels).len() == channels.len(),
    decreases channels.len(),
{
    if channels.len() == 0 {
        assert(channels_by_id(channels).dom() =~= Set::<Seq<char>>::empty());
    } else {
        let front = channels.drop_last();
        let last = channels.last();
        assert(distinct_ids(front)) by {
            assert forall|a: int, b: int| 0 <= a < b < front.len() implies (
            #[trigger] front[a]).channel_id@ != (#[trigger] front[b]).channel_id@ by {
                assert(channels[a].channel_id@ != channels[b].channel_id@);
            }
        }
        lemma_channels_len(front);
        assert(!channels_by_id(front).dom().contains(last.channel_id@)) by {
            if exists|k: int| has_id(front, k, last.channel_id@) {
                let k = choose|k: int| has_id(front, k, last.channel_id@);
                assert(channels[k].channel_id@ != channels[channels.len() - 1].channel_id@);
            }
        }
        assert(channels_by_id(channels).dom() =~= channels_by_id(front).dom().insert(
            last.channel_id@,
        )) by {
            assert forall|key: Seq<char>|
                channels_by_id(channels).dom().contains(key) == channels_by_id(
                    front,
                ).dom().insert(last.channel_id@).contains(key) by {
                if exists|k: int| has_id(channels, k, key) {
                    let k = choose|k: int| has_id(channels, k, key);
                    if k < front.len() {
                        assert(has_id(front, k, key));
                    }
                }
                if exists|k: int| has_id(front, k, key) {
                    let k = choose|k: int| has_id(front, k, key);
                    assert(has_id(channels, k, key));
                }
                if key == last.channel_id@ {
                    assert(has_id(channels, channels.len() - 1, key));
                }
            }
        }
    }
}

} // verus!

//! The keys that tag the current track in the tag tracks modal.
use std::str::Chars;

use vstd::prelude::*;
use vstd::string::*;

use crate::tag::models::{Tag, TagGroupId};

verus! {

/// The keys, in order: the key at index `i` toggles the `i`-th tag of the
/// selected tag group.
pub const TAG_KEYS: &'static str = "1234567890qwertyuiopasdfghjklzxcvbnm";

/// The characters of `TAG_KEYS`.
pub open spec fn tag_keys() -> Seq<char> {
    seq![
        '1', '2', '3', '4', '5', '6', '7', '8', '9', '0',
        'q', 'w', 'e', 'r', 't', 'y', 'u', 'i', 'o', 'p',
        'a', 's', 'd', 'f', 'g', 'h', 'j', 'k', 'l',
        'z', 'x', 'c', 'v', 'b', 'n', 'm',
    ]
}

proof fn lemma_tag_keys()
    ensures
        TAG_KEYS@ == tag_keys(),
{
    reveal_strlit("1234567890qwertyuiopasdfghjklzxcvbnm");
    assert(TAG_KEYS@ =~= tag_keys());
}

/// `i` is the first position of `key` among the tag keys.
pub open spec fn is_tag_key_index(key: char, i: int) -> bool {
    &&& 0 <= i < tag_keys().len()
    &&& tag_keys()[i] == key
    &&& forall|j: int| 0 <= j < i ==> tag_keys()[j] != key
}

/// Position of `key` among the tag keys, if it is one.
pub open spec fn tag_key_index(key: char) -> Option<int> {
    if exists|i: int| is_tag_key_index(key, i) {
        Some(choose|i: int| is_tag_key_index(key, i))
    } else {
        None
    }
}

/// A key has at most one first position.
pub proof fn lemma_tag_key_index(key: char, i: int)
    requires
        is_tag_key_index(key, i),
    ensures
        tag_key_index(key) == Some(i),
{
    let k = choose|k: int| is_tag_key_index(key, k);
    assert(is_tag_key_index(key, k));
    if k < i {
        assert(tag_keys()[k] != key);
    } else if i < k {
        assert(tag_keys()[i] != key);
    }
}

/// Position of `key` among the tag keys, or -1.
spec fn key_rank(key: char) -> int {
    if key == '1' {
        0
    } else if key == '2' {
        1
    } else if key == '3' {
        2
    } else if key == '4' {
        3
    } else if key == '5' {
        4
    } else if key == '6' {
        5
    } else if key == '7' {
        6
    } else if key == '8' {
        7
    } else if key == '9' {
        8
    } else if key == '0' {
        9
    } else if key == 'q' {
        10
    } else if key == 'w' {
        11
    } else if key == 'e' {
        12
    } else if key == 'r' {
        13
    } else if key == 't' {
        14
    } else if key == 'y' {
        15
    } else if key == 'u' {
        16
    } else if key == 'i' {
        17
    } else if key == 'o' {
        18
    } else if key == 'p' {
        19
    } else if key == 'a' {
        20
    } else if key == 's' {
        21
    } else if key == 'd' {
        22
    } else if key == 'f' {
        23
    } else if key == 'g' {
        24
    } else if key == 'h' {
        25
    } else if key == 'j' {
        26
    } else if key == 'k' {
        27
    } else if key == 'l' {
        28
    } else if key == 'z' {
        29
    } else if key == 'x' {
        30
    } else if key == 'c' {
        31
    } else if key == 'v' {
        32
    } else if key == 'b' {
        33
    } else if key == 'n' {
        34
    } else if key == 'm' {
        35
    } else {
        -1
    }
}

proof fn lemma_key_rank(j: int)
    requires
        0 <= j < tag_keys().len(),
    ensures
        key_rank(tag_keys()[j]) == j,
{
}

/// Each tag key stands for its own position: no key occurs twice.
pub proof fn law_tag_key_stands_for_its_position(i: int)
    requires
        0 <= i < tag_keys().len(),
    ensures
        tag_key_index(tag_keys()[i]) == Some(i),
{
    assert forall|k: int| 0 <= k < i implies tag_keys()[k] != tag_keys()[i] by {
        lemma_key_rank(k);
        lemma_key_rank(i);
    }
    lemma_tag_key_index(tag_keys()[i], i);
}

/// Position of `key` among the tag keys, if it is one.
pub fn get_tag_index(key: &char) -> (index: Option<usize>)
    ensures
        match index {
            Some(i) => tag_key_index(*key) == Some(i as int),
            None => tag_key_index(*key) is None && !tag_keys().contains(*key),
        },
{
    proof {
        lemma_tag_keys();
    }
    let length = TAG_KEYS.unicode_len();
    let mut i: usize = 0;
    while i < length
        invariant
            length == tag_keys().len(),
            TAG_KEYS@ == tag_keys(),
            i <= length,
            forall|j: int| 0 <= j < i ==> tag_keys()[j] != *key,
        decreases length - i,
    {
        if TAG_KEYS.get_char(i) == *key {
            proof {
                lemma_tag_key_index(*key, i as int);
            }
            return Some(i);
        }
        i = i + 1;
    }
    assert(!tag_keys().contains(*key));
    None
}

/// The tag keys, in order.
pub fn get_tag_keys() -> (keys: Chars<'static>)
    ensures
        into_iter_elts(keys) == tag_keys(),
{
    proof {
        lemma_tag_keys();
        broadcast use axiom_spec_iter;
    }
    TAG_KEYS.chars()
}

/// The tags of `tags` that belong to the group `tag_group_id`, in order.
pub open spec fn group_tags(tags: Seq<Tag>, tag_group_id: TagGroupId) -> Seq<Tag>
    decreases tags.len(),
{
    if tags.len() == 0 {
        Seq::empty()
    } else {
        let rest = group_tags(tags.drop_last(), tag_group_id);
        if tags.last().tag_group_id == tag_group_id {
            rest.push(tags.last())
        } else {
            rest
        }
    }
}

/// The tags of the tag group `tag_group_id`, in the order of `tags`.
pub fn get_tag_group_tags(tags: &[Tag], tag_group_id: TagGroupId) -> (group: Vec<&Tag>)
    ensures
        group@.len() == group_tags(tags@, tag_group_id).len(),
        forall|i: int| 0 <= i < group@.len() ==> *group@[i] == group_tags(tags@, tag_group_id)[i],
{
    let mut group: Vec<&Tag> = Vec::new();
    let mut i: usize = 0;
    while i < tags.len()
        invariant
            i <= tags@.len(),
            group@.len() == group_tags(tags@.take(i as int), tag_group_id).len(),
            forall|k: int|
                0 <= k < group@.len() ==> *group@[k] == group_tags(
                    tags@.take(i as int),
                    tag_group_id,
                )[k],
        decreases tags@.len() - i,
    {
        assert(tags@.take(i + 1).drop_last() =~= tags@.take(i as int));
        if tags[i].tag_group_id == tag_group_id {
            group.push(&tags[i]);
        }
        i = i + 1;
    }
    assert(tags@.take(tags@.len() as int) =~= tags@);
    group
}

} // verus!

//! What an encoded batch says: every member of every event, in order.

use vstd::prelude::*;

use crate::admission::{self, EventModel};
use crate::postgres;
use crate::text;

verus! {

/// The texts of the members of an encoded event.
pub struct Members {
    pub change_lsn: Seq<char>,
    pub change_ordinal: Seq<char>,
    pub image_ordinal: Seq<char>,
    pub payload: Seq<char>,
    pub source_oid: Seq<char>,
    pub source_subxid: Seq<char>,
    pub weight: Seq<char>,
}

/// The JSON object of these members under their names.
pub open spec fn object_of(members: Members) -> Seq<char> {
    "{\"change_lsn\":\""@ + (members.change_lsn + ("\",\"change_ordinal\":"@ + (
    members.change_ordinal + (",\"image_ordinal\":"@ + (members.image_ordinal + (
    ",\"payload\":"@ + (((((((members.payload + ",\"source_oid\":"@) + members.source_oid)
        + ",\"source_subxid\":"@) + members.source_subxid) + ",\"weight\":"@) + members.weight)
        + "}"@)))))))
}

/// Whether members stand for an event: the position of its change, the
/// numbers of its change and image, its source and transaction, its weight
/// with its sign, and its row.
pub open spec fn stand_for(members: Members, event: EventModel) -> bool {
    &&& postgres::lsn_value(members.change_lsn) == Some(event.change_lsn as nat)
    &&& text::integer_value(members.change_ordinal) == Some(event.change_ordinal as int)
    &&& text::integer_value(members.image_ordinal) == Some(event.image_ordinal as int)
    &&& text::integer_value(members.source_oid) == Some(event.source_oid as int)
    &&& text::integer_value(members.source_subxid) == Some(event.source_subxid as int)
    &&& text::integer_value(members.weight) == Some(event.weight as int)
    &&& members.payload == event.payload
}

/// Whether a text, read member by member, gives an event.
pub open spec fn reads(form: Seq<char>, event: EventModel) -> bool {
    exists|members: Members| form == #[trigger] object_of(members) && stand_for(members, event)
}

/// An event survives its encoding: every member reads back as it was.
pub proof fn encoded_event_is_read_back(event: EventModel)
    ensures
        reads(admission::event_text(event), event),
{
    let members = Members {
        change_lsn: postgres::lsn_text(event.change_lsn),
        change_ordinal: text::decimal(event.change_ordinal as int),
        image_ordinal: text::decimal(event.image_ordinal as int),
        payload: event.payload,
        source_oid: text::decimal(event.source_oid as int),
        source_subxid: text::decimal(event.source_subxid as int),
        weight: text::decimal(event.weight as int),
    };
    postgres::lsn_text_is_read_back(event.change_lsn);
    text::decimal_is_read_back(event.change_ordinal as int);
    text::decimal_is_read_back(event.image_ordinal as int);
    text::decimal_is_read_back(event.source_oid as int);
    text::decimal_is_read_back(event.source_subxid as int);
    text::decimal_is_read_back(event.weight as int);
    let row = ",\"payload\":"@;
    let front = "{\"change_lsn\":\""@ + members.change_lsn + "\",\"change_ordinal\":"@
        + members.change_ordinal + ",\"image_ordinal\":"@ + members.image_ordinal + row;
    let payload = members.payload;
    let oid = payload + ",\"source_oid\":"@;
    let oid_value = oid + members.source_oid;
    let subxid = oid_value + ",\"source_subxid\":"@;
    let subxid_value = subxid + members.source_subxid;
    let weight = subxid_value + ",\"weight\":"@;
    let weight_value = weight + members.weight;
    let tail = weight_value + "}"@;
    regrouped(front, payload, ",\"source_oid\":"@);
    regrouped(front, oid, members.source_oid);
    regrouped(front, oid_value, ",\"source_subxid\":"@);
    regrouped(front, subxid, members.source_subxid);
    regrouped(front, subxid_value, ",\"weight\":"@);
    regrouped(front, weight, members.weight);
    regrouped(front, weight_value, "}"@);
    assert(admission::event_text(event) == front + tail);
    let lsn = "{\"change_lsn\":\""@;
    let lsn_value = lsn + members.change_lsn;
    let change = lsn_value + "\",\"change_ordinal\":"@;
    let change_value = change + members.change_ordinal;
    let image = change_value + ",\"image_ordinal\":"@;
    let image_value = image + members.image_ordinal;
    let behind_image = row + tail;
    let behind_change = ",\"image_ordinal\":"@ + (members.image_ordinal + behind_image);
    let behind_lsn = "\",\"change_ordinal\":"@ + (members.change_ordinal + behind_change);
    regrouped(image_value, row, tail);
    regrouped(image, members.image_ordinal, behind_image);
    regrouped(change_value, ",\"image_ordinal\":"@, members.image_ordinal + behind_image);
    regrouped(change, members.change_ordinal, behind_change);
    regrouped(lsn_value, "\",\"change_ordinal\":"@, members.change_ordinal + behind_change);
    regrouped(lsn, members.change_lsn, behind_lsn);
    assert(admission::event_text(event) == object_of(members));
}

proof fn regrouped(first: Seq<char>, second: Seq<char>, third: Seq<char>)
    ensures
        (first + second) + third == first + (second + third),
{
    assert((first + second) + third =~= first + (second + third));
}

proof fn same_front(
    left: Seq<char>,
    behind_left: Seq<char>,
    right: Seq<char>,
    behind_right: Seq<char>,
    end: char,
)
    requires
        left + behind_left == right + behind_right,
        behind_left.len() > 0 && behind_left[0] == end,
        behind_right.len() > 0 && behind_right[0] == end,
        forall|index: int| 0 <= index < left.len() ==> #[trigger] left[index] != end,
        forall|index: int| 0 <= index < right.len() ==> #[trigger] right[index] != end,
    ensures
        left == right,
        behind_left == behind_right,
{
    let whole = left + behind_left;
    assert(whole == right + behind_right);
    assert(whole[left.len() as int] == end);
    assert(whole[right.len() as int] == end);
    if left.len() < right.len() {
        assert(right[left.len() as int] == whole[left.len() as int]);
    }
    if right.len() < left.len() {
        assert(left[right.len() as int] == whole[right.len() as int]);
    }
    assert(left =~= whole.take(left.len() as int));
    assert(right =~= whole.take(left.len() as int));
    assert(behind_left =~= whole.skip(left.len() as int));
    assert(behind_right =~= whole.skip(left.len() as int));
}

proof fn same_back(
    before_left: Seq<char>,
    left: Seq<char>,
    before_right: Seq<char>,
    right: Seq<char>,
    end: char,
)
    requires
        before_left + left == before_right + right,
        before_left.len() > 0 && before_left.last() == end,
        before_right.len() > 0 && before_right.last() == end,
        forall|index: int| 0 <= index < left.len() ==> #[trigger] left[index] != end,
        forall|index: int| 0 <= index < right.len() ==> #[trigger] right[index] != end,
    ensures
        left == right,
        before_left == before_right,
{
    let whole = before_left + left;
    assert(whole == before_right + right);
    assert(whole[before_left.len() - 1] == end);
    assert(whole[before_right.len() - 1] == end);
    if before_left.len() < before_right.len() {
        assert(left[before_right.len() - 1 - before_left.len()] == whole[before_right.len() - 1]);
    }
    if before_right.len() < before_left.len() {
        assert(right[before_left.len() - 1 - before_right.len()] == whole[before_left.len() - 1]);
    }
    assert(before_left =~= whole.take(before_left.len() as int));
    assert(before_right =~= whole.take(before_left.len() as int));
    assert(left =~= whole.skip(before_left.len() as int));
    assert(right =~= whole.skip(before_left.len() as int));
}

proof fn same_behind(front: Seq<char>, left: Seq<char>, right: Seq<char>)
    requires
        front + left == front + right,
    ensures
        left == right,
{
    assert(left =~= (front + left).skip(front.len() as int));
    assert(right =~= (front + right).skip(front.len() as int));
}

proof fn same_before(left: Seq<char>, right: Seq<char>, back: Seq<char>)
    requires
        left + back == right + back,
    ensures
        left == right,
{
    let whole = left + back;
    assert(whole.len() == left.len() + back.len());
    assert(whole.len() == right.len() + back.len());
    assert(left =~= whole.take(left.len() as int));
    assert(right =~= whole.take(right.len() as int));
}

/// A member that is a number holds no character of the object around it.
proof fn number_is_bare(numeral: Seq<char>, end: char)
    requires
        text::integer_value(numeral) is Some,
        end == ',' || end == ':',
    ensures
        forall|index: int| 0 <= index < numeral.len() ==> #[trigger] numeral[index] != end,
{
    text::numeral_is_digits(numeral);
}

/// The row and what is behind it read in one way only.
proof fn back_reads_once(left: Members, one: EventModel, right: Members, other: EventModel)
    requires
        stand_for(left, one),
        stand_for(right, other),
        (((((((left.payload + ",\"source_oid\":"@) + left.source_oid) + ",\"source_subxid\":"@)
            + left.source_subxid) + ",\"weight\":"@) + left.weight) + "}"@) == (((((((right.payload
            + ",\"source_oid\":"@) + right.source_oid) + ",\"source_subxid\":"@)
            + right.source_subxid) + ",\"weight\":"@) + right.weight) + "}"@),
    ensures
        left.payload == right.payload,
        left.source_oid == right.source_oid,
        left.source_subxid == right.source_subxid,
        left.weight == right.weight,
{
    reveal_strlit(",\"source_oid\":");
    reveal_strlit(",\"source_subxid\":");
    reveal_strlit(",\"weight\":");
    let oid_left = left.payload + ",\"source_oid\":"@;
    let oid_right = right.payload + ",\"source_oid\":"@;
    let subxid_left = oid_left + left.source_oid + ",\"source_subxid\":"@;
    let subxid_right = oid_right + right.source_oid + ",\"source_subxid\":"@;
    let weight_left = subxid_left + left.source_subxid + ",\"weight\":"@;
    let weight_right = subxid_right + right.source_subxid + ",\"weight\":"@;
    number_is_bare(left.weight, ':');
    number_is_bare(right.weight, ':');
    number_is_bare(left.source_subxid, ':');
    number_is_bare(right.source_subxid, ':');
    number_is_bare(left.source_oid, ':');
    number_is_bare(right.source_oid, ':');
    same_before(weight_left + left.weight, weight_right + right.weight, "}"@);
    same_back(weight_left, left.weight, weight_right, right.weight, ':');
    same_before(
        subxid_left + left.source_subxid,
        subxid_right + right.source_subxid,
        ",\"weight\":"@,
    );
    same_back(subxid_left, left.source_subxid, subxid_right, right.source_subxid, ':');
    same_before(oid_left + left.source_oid, oid_right + right.source_oid, ",\"source_subxid\":"@);
    same_back(oid_left, left.source_oid, oid_right, right.source_oid, ':');
    same_before(left.payload, right.payload, ",\"source_oid\":"@);
}

/// A text reads as one event at most.
pub proof fn encoding_reads_once(form: Seq<char>, one: EventModel, other: EventModel)
    requires
        reads(form, one),
        reads(form, other),
    ensures
        one == other,
{
    let left = choose|members: Members|
        form == #[trigger] object_of(members) && stand_for(members, one);
    let right = choose|members: Members|
        form == #[trigger] object_of(members) && stand_for(members, other);
    reveal_strlit("\",\"change_ordinal\":");
    reveal_strlit(",\"image_ordinal\":");
    reveal_strlit(",\"payload\":");
    let tail_left = ((((((left.payload + ",\"source_oid\":"@) + left.source_oid)
        + ",\"source_subxid\":"@) + left.source_subxid) + ",\"weight\":"@) + left.weight) + "}"@;
    let tail_right = ((((((right.payload + ",\"source_oid\":"@) + right.source_oid)
        + ",\"source_subxid\":"@) + right.source_subxid) + ",\"weight\":"@) + right.weight) + "}"@;
    let image_left = ",\"payload\":"@ + tail_left;
    let image_right = ",\"payload\":"@ + tail_right;
    let ordinal_left = ",\"image_ordinal\":"@ + (left.image_ordinal + image_left);
    let ordinal_right = ",\"image_ordinal\":"@ + (right.image_ordinal + image_right);
    let lsn_left = "\",\"change_ordinal\":"@ + (left.change_ordinal + ordinal_left);
    let lsn_right = "\",\"change_ordinal\":"@ + (right.change_ordinal + ordinal_right);
    same_behind(
        "{\"change_lsn\":\""@,
        left.change_lsn + lsn_left,
        right.change_lsn + lsn_right,
    );
    postgres::lsn_is_bare(left.change_lsn);
    postgres::lsn_is_bare(right.change_lsn);
    same_front(left.change_lsn, lsn_left, right.change_lsn, lsn_right, '"');
    same_behind(
        "\",\"change_ordinal\":"@,
        left.change_ordinal + ordinal_left,
        right.change_ordinal + ordinal_right,
    );
    number_is_bare(left.change_ordinal, ',');
    number_is_bare(right.change_ordinal, ',');
    same_front(left.change_ordinal, ordinal_left, right.change_ordinal, ordinal_right, ',');
    same_behind(
        ",\"image_ordinal\":"@,
        left.image_ordinal + image_left,
        right.image_ordinal + image_right,
    );
    number_is_bare(left.image_ordinal, ',');
    number_is_bare(right.image_ordinal, ',');
    same_front(left.image_ordinal, image_left, right.image_ordinal, image_right, ',');
    same_behind(",\"payload\":"@, tail_left, tail_right);
    back_reads_once(left, one, right, other);
}

/// Two events that differ in any member have different texts.
pub proof fn encoding_is_injective(one: EventModel, other: EventModel)
    requires
        admission::event_text(one) == admission::event_text(other),
    ensures
        one == other,
{
    encoded_event_is_read_back(one);
    encoded_event_is_read_back(other);
    encoding_reads_once(admission::event_text(one), one, other);
}

/// A batch is a list of its events: one text for each, in the order of the
/// batch, and each reads back as its event.
pub proof fn encoded_batch_lists_its_events(events: Seq<EventModel>)
    ensures
        exists|items: Seq<Seq<char>>|
            #![trigger text::joined(items, ","@)]
            {
                &&& admission::batch_text(events) == "["@ + text::joined(items, ","@) + "]"@
                &&& items.len() == events.len()
                &&& forall|index: int|
                    0 <= index < events.len() ==> reads(#[trigger] items[index], events[index])
            },
{
    let items = Seq::new(events.len(), |index: int| admission::event_text(events[index]));
    assert forall|index: int| 0 <= index < events.len() implies reads(
        #[trigger] items[index],
        events[index],
    ) by {
        encoded_event_is_read_back(events[index]);
    }
    assert(admission::batch_text(events) == "["@ + text::joined(items, ","@) + "]"@);
}

} // verus!

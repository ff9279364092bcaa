use vstd::prelude::*;
use crate::records::{DownloadedRecipe, Recipe};
use crate::text::digit_char;

verus! {

/// Whether `ids` holds an identifier whose text is `id`.
pub open spec fn has_id(ids: Seq<String>, id: Seq<char>) -> bool {
    exists|j: int| 0 <= j < ids.len() && ids[j]@ == id
}

/// No two identifiers of `ids` have the same text.
pub open spec fn distinct_ids(ids: Seq<String>) -> bool {
    forall|i: int, j: int| 0 <= i < j < ids.len() ==> ids[i]@ != ids[j]@
}

/// The remote identifiers that local records are linked to, in order.
pub open spec fn linked_ids(local: Seq<Recipe>) -> Seq<String>
    decreases local.len(),
{
    if local.len() == 0 {
        Seq::empty()
    } else {
        let prev = linked_ids(local.drop_last());
        match local.last().cloud_parent_id {
            Some(id) => prev.push(id),
            None => prev,
        }
    }
}

/// The positions of the local records that have no remote counterpart yet.
pub open spec fn unlinked_positions(local: Seq<Recipe>) -> Seq<usize>
    decreases local.len(),
{
    if local.len() == 0 {
        Seq::empty()
    } else {
        let prev = unlinked_positions(local.drop_last());
        if local.last().cloud_parent_id is None {
            prev.push((local.len() - 1) as usize)
        } else {
            prev
        }
    }
}

/// The remote identifiers of remote records, in order.
pub open spec fn record_ids(rs: Seq<DownloadedRecipe>) -> Seq<String> {
    rs.map_values(|r: DownloadedRecipe| r.id)
}

/// The remote records to insert locally, under insert-if-new: in the order
/// received, each record whose identifier no local record is linked to and
/// that no earlier record of the answer carries.
pub open spec fn fresh_records(linked: Seq<String>, remote: Seq<DownloadedRecipe>) -> Seq<
    DownloadedRecipe,
>
    decreases remote.len(),
{
    if remote.len() == 0 {
        Seq::empty()
    } else {
        let prev = fresh_records(linked, remote.drop_last());
        let r = remote.last();
        if has_id(linked + record_ids(prev), r.id@) {
            prev
        } else {
            prev.push(r)
        }
    }
}

/// The remote identifiers that local records are linked to once the fresh
/// records of `remote` are inserted, each linked to its own identifier.
pub open spec fn synced_ids(linked: Seq<String>, remote: Seq<DownloadedRecipe>) -> Seq<String> {
    linked + record_ids(fresh_records(linked, remote))
}

/// The remote identifiers that local records are linked to, in order.
pub fn linked_cloud_ids(local: &Vec<Recipe>) -> (r: Vec<String>)
    ensures
        r@ == linked_ids(local@),
{
    let mut out: Vec<String> = Vec::new();
    let mut i: usize = 0;
    while i < local.len()
        invariant
            i <= local@.len(),
            out@ == linked_ids(local@.subrange(0, i as int)),
        decreases local.len() - i,
    {
        assert(local@.subrange(0, i + 1).drop_last() =~= local@.subrange(0, i as int));
        match &local[i].cloud_parent_id {
            Some(id) => out.push(id.clone()),
            None => {},
        }
        i = i + 1;
    }
    assert(local@.subrange(0, local@.len() as int) =~= local@);
    out
}

/// The positions of the local records that are not linked to a remote
/// record yet: the candidates for upload.
pub fn upload_candidates(local: &Vec<Recipe>) -> (r: Vec<usize>)
    ensures
        r@ == unlinked_positions(local@),
{
    let mut out: Vec<usize> = Vec::new();
    let mut i: usize = 0;
    while i < local.len()
        invariant
            i <= local@.len(),
            out@ == unlinked_positions(local@.subrange(0, i as int)),
        decreases local.len() - i,
    {
        assert(local@.subrange(0, i + 1).drop_last() =~= local@.subrange(0, i as int));
        if local[i].cloud_parent_id.is_none() {
            out.push(i);
        }
        i = i + 1;
    }
    assert(local@.subrange(0, local@.len() as int) =~= local@);
    out
}

fn contains_id(ids: &Vec<String>, id: &String) -> (r: bool)
    ensures
        r == has_id(ids@, id@),
{
    let mut i: usize = 0;
    while i < ids.len()
        invariant
            i <= ids@.len(),
            forall|j: int| 0 <= j < i ==> ids@[j]@ != id@,
        decreases ids.len() - i,
    {
        if ids[i] == *id {
            return true;
        }
        i = i + 1;
    }
    false
}

fn contains_record_id(rs: &Vec<DownloadedRecipe>, id: &String) -> (r: bool)
    ensures
        r == has_id(record_ids(rs@), id@),
{
    let mut i: usize = 0;
    while i < rs.len()
        invariant
            i <= rs@.len(),
            forall|j: int| 0 <= j < i ==> rs@[j].id@ != id@,
        decreases rs.len() - i,
    {
        if rs[i].id == *id {
            assert(record_ids(rs@)[i as int] == rs@[i as int].id);
            return true;
        }
        i = i + 1;
    }
    proof {
        if has_id(record_ids(rs@), id@) {
            let j = choose|j: int| 0 <= j < record_ids(rs@).len() && record_ids(rs@)[j]@ == id@;
            assert(rs@[j].id@ != id@);
        }
    }
    false
}

proof fn lemma_has_id_concat(a: Seq<String>, b: Seq<String>, id: Seq<char>)
    ensures
        has_id(a + b, id) == (has_id(a, id) || has_id(b, id)),
{
    if has_id(a + b, id) {
        let j = choose|j: int| 0 <= j < (a + b).len() && (a + b)[j]@ == id;
        if j >= a.len() {
            assert(b[j - a.len()]@ == id);
        }
    }
    if has_id(a, id) {
        let j = choose|j: int| 0 <= j < a.len() && a[j]@ == id;
        assert((a + b)[j]@ == id);
    }
    if has_id(b, id) {
        let j = choose|j: int| 0 <= j < b.len() && b[j]@ == id;
        assert((a + b)[a.len() + j]@ == id);
    }
}

/// A remote record to insert locally, linked to its remote counterpart and
/// owned by the signed-in user.
#[derive(Clone, Debug, PartialEq, Eq)]
pub struct LocalInsert {
    pub recipe: DownloadedRecipe,
    pub cloud_parent_id: String,
    pub owner: String,
}

/// `inserts` inserts exactly the records of `fresh`, in order, each linked
/// to its own remote identifier and owned by `owner`.
pub open spec fn plans(inserts: Seq<LocalInsert>, fresh: Seq<DownloadedRecipe>, owner: String) -> bool {
    &&& inserts.len() == fresh.len()
    &&& forall|k: int|
        0 <= k < inserts.len() ==> {
            &&& #[trigger] inserts[k].recipe == fresh[k]
            &&& inserts[k].cloud_parent_id == fresh[k].id
            &&& inserts[k].owner == owner
        }
}

fn contains_planned_id(rs: &Vec<LocalInsert>, id: &String) -> (r: bool)
    ensures
        r == has_id(record_ids(rs@.map_values(|x: LocalInsert| x.recipe)), id@),
{
    let ghost recs = rs@.map_values(|x: LocalInsert| x.recipe);
    let mut i: usize = 0;
    while i < rs.len()
        invariant
            i <= rs@.len(),
            recs == rs@.map_values(|x: LocalInsert| x.recipe),
            forall|j: int| 0 <= j < i ==> rs@[j].recipe.id@ != id@,
        decreases rs.len() - i,
    {
        if rs[i].recipe.id == *id {
            assert(record_ids(recs)[i as int] == rs@[i as int].recipe.id);
            return true;
        }
        i = i + 1;
    }
    proof {
        if has_id(record_ids(recs), id@) {
            let j = choose|j: int| 0 <= j < record_ids(recs).len() && record_ids(recs)[j]@ == id@;
            assert(rs@[j].recipe.id@ != id@);
        }
    }
    false
}

/// Plans the local inserts of a sync under insert-if-new: the records of
/// `remote` whose identifier is not in `linked` and not carried by an
/// earlier record of `remote`, in the order received, each linked to its
/// own remote identifier and owned by `owner`.
pub fn plan_inserts(linked: &Vec<String>, remote: Vec<DownloadedRecipe>, owner: &String) -> (r: Vec<
    LocalInsert,
>)
    ensures
        plans(r@, fresh_records(linked@, remote@), *owner),
{
    let ghost all = remote@;
    let mut pending = remote;
    let mut stack: Vec<DownloadedRecipe> = Vec::new();
    while pending.len() > 0
        invariant
            pending@.len() + stack@.len() == all.len(),
            pending@ == all.subrange(0, pending@.len() as int),
            forall|k: int| 0 <= k < stack@.len() ==> stack@[k] == all[all.len() - 1 - k],
        decreases pending.len(),
    {
        let x = pending.pop().unwrap();
        stack.push(x);
    }
    let mut out: Vec<LocalInsert> = Vec::new();
    while stack.len() > 0
        invariant
            stack@.len() <= all.len(),
            forall|k: int| 0 <= k < stack@.len() ==> stack@[k] == all[all.len() - 1 - k],
            plans(out@, fresh_records(linked@, all.subrange(0, all.len() - stack@.len())), *owner),
        decreases stack.len(),
    {
        let ghost i = all.len() - stack@.len();
        let ghost before = fresh_records(linked@, all.subrange(0, i));
        let r = stack.pop().unwrap();
        assert(r == all[i]);
        assert(all.subrange(0, i + 1).drop_last() =~= all.subrange(0, i));
        assert(all.subrange(0, i + 1).last() == all[i]);
        assert(out@.map_values(|x: LocalInsert| x.recipe) =~= before);
        let seen = contains_id(linked, &r.id) || contains_planned_id(&out, &r.id);
        proof {
            lemma_has_id_concat(linked@, record_ids(before), r.id@);
        }
        if !seen {
            let cloud_parent_id = r.id.clone();
            let ghost prev_out = out@;
            out.push(LocalInsert { recipe: r, cloud_parent_id, owner: owner.clone() });
            assert(plans(out@, before.push(all[i]), *owner)) by {
                assert forall|k: int| 0 <= k < out@.len() implies {
                    &&& #[trigger] out@[k].recipe == before.push(all[i])[k]
                    &&& out@[k].cloud_parent_id == before.push(all[i])[k].id
                    &&& out@[k].owner == *owner
                } by {
                    if k < out@.len() - 1 {
                        assert(out@[k] == prev_out[k]);
                    }
                }
            }
        }
    }
    assert(all.subrange(0, all.len() as int) =~= all);
    out
}

/// Every record of a remote answer is linked locally once the sync has
/// inserted the fresh ones.
proof fn lemma_synced_covers_remote(linked: Seq<String>, remote: Seq<DownloadedRecipe>, k: int)
    requires
        0 <= k < remote.len(),
    ensures
        has_id(synced_ids(linked, remote), remote[k].id@),
    decreases remote.len(),
{
    let prev = fresh_records(linked, remote.drop_last());
    let r = remote.last();
    if k < remote.len() - 1 {
        lemma_synced_covers_remote(linked, remote.drop_last(), k);
        let j = choose|j: int|
            0 <= j < synced_ids(linked, remote.drop_last()).len() && synced_ids(
                linked,
                remote.drop_last(),
            )[j]@ == remote[k].id@;
        if !has_id(linked + record_ids(prev), r.id@) {
            assert(record_ids(prev.push(r)) =~= record_ids(prev).push(r.id));
            assert(synced_ids(linked, remote)[j] == synced_ids(linked, remote.drop_last())[j]);
        }
    } else {
        if has_id(linked + record_ids(prev), r.id@) {
        } else {
            assert(record_ids(prev.push(r)) =~= record_ids(prev).push(r.id));
            let s = synced_ids(linked, remote);
            assert(s[s.len() - 1] == r.id);
        }
    }
}

/// Inserting the fresh records keeps local links unique.
proof fn lemma_synced_distinct(linked: Seq<String>, remote: Seq<DownloadedRecipe>)
    requires
        distinct_ids(linked),
    ensures
        distinct_ids(synced_ids(linked, remote)),
    decreases remote.len(),
{
    if remote.len() == 0 {
        assert(synced_ids(linked, remote) =~= linked);
    } else {
        lemma_synced_distinct(linked, remote.drop_last());
        let prev = fresh_records(linked, remote.drop_last());
        let r = remote.last();
        let before = linked + record_ids(prev);
        if !has_id(before, r.id@) {
            assert(record_ids(prev.push(r)) =~= record_ids(prev).push(r.id));
            assert(synced_ids(linked, remote) =~= before.push(r.id));
            assert forall|i: int, j: int|
                0 <= i < j < before.push(r.id).len() implies before.push(r.id)[i]@ != before.push(
                r.id,
            )[j]@ by {
                if j == before.len() {
                    assert(before[i]@ != r.id@);
                }
            }
        }
    }
}

/// An answer whose records are all linked locally inserts nothing.
proof fn lemma_known_answer_inserts_nothing(linked: Seq<String>, answer: Seq<DownloadedRecipe>)
    requires
        forall|k: int| 0 <= k < answer.len() ==> has_id(linked, #[trigger] answer[k].id@),
    ensures
        fresh_records(linked, answer).len() == 0,
    decreases answer.len(),
{
    if answer.len() > 0 {
        lemma_known_answer_inserts_nothing(linked, answer.drop_last());
        let prev = fresh_records(linked, answer.drop_last());
        assert(record_ids(prev) =~= Seq::<String>::empty());
        assert(linked + record_ids(prev) =~= linked);
        assert(has_id(linked, answer[answer.len() - 1].id@));
    }
}

/// Over the identifiers alone: links stay distinct, and a second answer of
/// known records inserts nothing.
proof fn lemma_synced_links(
    local: Seq<Recipe>,
    remote: Seq<DownloadedRecipe>,
    second: Seq<DownloadedRecipe>,
)
    requires
        distinct_ids(linked_ids(local)),
        forall|k: int|
            0 <= k < second.len() ==> has_id(
                linked_ids(local) + record_ids(remote),
                #[trigger] second[k].id@,
            ),
    ensures
        distinct_ids(synced_ids(linked_ids(local), remote)),
        fresh_records(synced_ids(linked_ids(local), remote), second).len() == 0,
{
    let linked = linked_ids(local);
    let after = synced_ids(linked, remote);
    lemma_synced_distinct(linked, remote);
    assert forall|k: int| 0 <= k < second.len() implies has_id(after, #[trigger] second[k].id@) by {
        let id = second[k].id@;
        lemma_has_id_concat(linked, record_ids(remote), id);
        lemma_has_id_concat(linked, record_ids(fresh_records(linked, remote)), id);
        if !has_id(linked, id) {
            let j = choose|j: int| 0 <= j < record_ids(remote).len() && record_ids(remote)[j]@ == id;
            lemma_synced_covers_remote(linked, remote, j);
        }
    }
    lemma_known_answer_inserts_nothing(after, second);
}

proof fn lemma_linked_ids_concat(a: Seq<Recipe>, b: Seq<Recipe>)
    ensures
        linked_ids(a + b) == linked_ids(a) + linked_ids(b),
    decreases b.len(),
{
    if b.len() == 0 {
        assert(a + b =~= a);
        assert(linked_ids(a) + linked_ids(b) =~= linked_ids(a));
    } else {
        lemma_linked_ids_concat(a, b.drop_last());
        assert((a + b).drop_last() =~= a + b.drop_last());
        assert((a + b).last() == b.last());
        match b.last().cloud_parent_id {
            Some(id) => {
                assert(linked_ids(a) + linked_ids(b.drop_last()).push(id) =~= (linked_ids(a)
                    + linked_ids(b.drop_last())).push(id));
            },
            None => {},
        }
    }
}

proof fn lemma_inserted_links(added: Seq<Recipe>, fresh: Seq<DownloadedRecipe>)
    requires
        added.len() == fresh.len(),
        forall|k: int| 0 <= k < added.len() ==> #[trigger] added[k].cloud_parent_id == Some(fresh[k].id),
    ensures
        linked_ids(added) == record_ids(fresh),
    decreases added.len(),
{
    if added.len() == 0 {
        assert(record_ids(fresh) =~= Seq::<String>::empty());
    } else {
        lemma_inserted_links(added.drop_last(), fresh.drop_last());
        assert(added.last().cloud_parent_id == Some(fresh[fresh.len() - 1].id));
        assert(record_ids(fresh) =~= record_ids(fresh.drop_last()).push(fresh.last().id));
    }
}

proof fn lemma_fresh_not_linked(linked: Seq<String>, remote: Seq<DownloadedRecipe>, k: int)
    requires
        0 <= k < fresh_records(linked, remote).len(),
    ensures
        !has_id(linked, fresh_records(linked, remote)[k].id@),
    decreases remote.len(),
{
    let prev = fresh_records(linked, remote.drop_last());
    let r = remote.last();
    if k < prev.len() {
        lemma_fresh_not_linked(linked, remote.drop_last(), k);
    } else {
        lemma_has_id_concat(linked, record_ids(prev), r.id@);
    }
}

/// A sync alters no existing local record. Let it insert, as `added`, one
/// record per fresh record of its answer `remote`, each linked to that
/// record's remote identifier. The local records afterwards are the old
/// ones, unchanged and in place, followed by the added ones; and no added
/// record is linked to a remote record that an existing one is linked to.
pub proof fn lemma_sync_keeps_existing(
    local: Seq<Recipe>,
    remote: Seq<DownloadedRecipe>,
    added: Seq<Recipe>,
)
    requires
        added.len() == fresh_records(linked_ids(local), remote).len(),
        forall|k: int|
            0 <= k < added.len() ==> #[trigger] added[k].cloud_parent_id == Some(
                fresh_records(linked_ids(local), remote)[k].id,
            ),
    ensures
        (local + added).subrange(0, local.len() as int) == local,
        forall|k: int|
            0 <= k < added.len() ==> !has_id(
                linked_ids(local),
                (#[trigger] added[k]).cloud_parent_id->Some_0@,
            ),
{
    assert((local + added).subrange(0, local.len() as int) =~= local);
    assert forall|k: int| 0 <= k < added.len() implies !has_id(
        linked_ids(local),
        (#[trigger] added[k]).cloud_parent_id->Some_0@,
    ) by {
        lemma_fresh_not_linked(linked_ids(local), remote, k);
    }
}

/// Sync's remote-insert step is idempotent. Start from local records whose
/// links are unique, and let a first sync insert, as `added`, one record per
/// fresh record of its answer `remote`, each linked to that record's remote
/// identifier (what the inserts that `plan_inserts` plans store). Then the
/// local links are the old ones followed by the new ones, they are still
/// unique, and a second sync, whose answer holds only records that were
/// already known (linked before, or in the first answer), inserts nothing.
pub proof fn lemma_sync_twice_no_duplicates(
    local: Seq<Recipe>,
    remote: Seq<DownloadedRecipe>,
    added: Seq<Recipe>,
    second: Seq<DownloadedRecipe>,
)
    requires
        distinct_ids(linked_ids(local)),
        added.len() == fresh_records(linked_ids(local), remote).len(),
        forall|k: int|
            0 <= k < added.len() ==> #[trigger] added[k].cloud_parent_id == Some(
                fresh_records(linked_ids(local), remote)[k].id,
            ),
        forall|k: int|
            0 <= k < second.len() ==> has_id(
                linked_ids(local) + record_ids(remote),
                #[trigger] second[k].id@,
            ),
    ensures
        linked_ids(local + added) == synced_ids(linked_ids(local), remote),
        distinct_ids(linked_ids(local + added)),
        fresh_records(linked_ids(local + added), second).len() == 0,
{
    lemma_linked_ids_concat(local, added);
    lemma_inserted_links(added, fresh_records(linked_ids(local), remote));
    lemma_synced_links(local, remote, second);
}

/// The texts of a list of strings.
pub open spec fn texts(items: Seq<String>) -> Seq<Seq<char>> {
    items.map_values(|s: String| s@)
}

/// A lower-case hexadecimal digit.
pub open spec fn hex_char(d: nat) -> char {
    if d < 10 {
        digit_char(d)
    } else if d == 10 {
        'a'
    } else if d == 11 {
        'b'
    } else if d == 12 {
        'c'
    } else if d == 13 {
        'd'
    } else if d == 14 {
        'e'
    } else {
        'f'
    }
}

/// How one character stands inside a JSON string: quote, backslash and the
/// five named controls get a short escape, the other controls below U+0020
/// a `\u00xx` escape, and every other character stands as it is.
pub open spec fn json_escape_char(c: char) -> Seq<char> {
    if c == '"' {
        seq!['\\', '"']
    } else if c == '\\' {
        seq!['\\', '\\']
    } else if c == '\u{8}' {
        seq!['\\', 'b']
    } else if c == '\t' {
        seq!['\\', 't']
    } else if c == '\n' {
        seq!['\\', 'n']
    } else if c == '\u{c}' {
        seq!['\\', 'f']
    } else if c == '\r' {
        seq!['\\', 'r']
    } else if (c as u32) < 0x20 {
        seq!['\\', 'u', '0', '0', hex_char((c as u32 / 16) as nat), hex_char((c as u32 % 16) as nat)]
    } else {
        seq![c]
    }
}

/// The contents of a JSON string holding `s`, escaped.
pub open spec fn json_escaped(s: Seq<char>) -> Seq<char>
    decreases s.len(),
{
    if s.len() == 0 {
        Seq::empty()
    } else {
        json_escaped(s.drop_last()) + json_escape_char(s.last())
    }
}

/// The texts as JSON strings, separated by commas.
pub open spec fn quoted_items(items: Seq<Seq<char>>) -> Seq<char>
    decreases items.len(),
{
    if items.len() == 0 {
        Seq::empty()
    } else if items.len() == 1 {
        seq!['"'] + json_escaped(items[0]) + seq!['"']
    } else {
        quoted_items(items.drop_last()) + seq![','] + seq!['"'] + json_escaped(items.last()) + seq![
            '"',
        ]
    }
}

/// The compact JSON array of the texts.
pub open spec fn json_string_array(items: Seq<Seq<char>>) -> Seq<char> {
    seq!['['] + quoted_items(items) + seq![']']
}

/// Relies on serde_json::to_string: encodes a list of strings as a compact
/// JSON array, `[` and `]` around the strings separated by commas, each
/// string quoted and escaped by serde_json's escape table. Serializing
/// strings into a `Vec` cannot fail.
#[verifier::external_body]
fn encode_string_array(items: &Vec<String>) -> (r: Option<String>)
    ensures
        r is Some,
        r matches Some(t) ==> t@ == json_string_array(texts(items@)),
{
    serde_json::to_string(items).ok()
}

/// The body of the set-difference request around the JSON array text of
/// the linked identifiers: `{"recipeIds":<array>}`.
pub open spec fn other_than_text(array: Seq<char>) -> Seq<char> {
    "{\"recipeIds\":"@ + array + "}"@
}

/// Frames the JSON array text of the linked identifiers as the body of the
/// set-difference request.
pub fn frame_other_than(array: &String) -> (r: String)
    ensures
        r@ == other_than_text(array@),
{
    let mut body = String::from_str("{\"recipeIds\":");
    body.append(array.as_str());
    body.append("}");
    body
}

/// The body of the set-difference request for the linked identifiers:
/// `{"recipeIds":[...]}` with the identifiers as a JSON array.
pub fn other_than_body(linked: &Vec<String>) -> (r: String)
    ensures
        r@ == other_than_text(json_string_array(texts(linked@))),
{
    let array = encode_string_array(linked).unwrap();
    frame_other_than(&array)
}

} // verus!

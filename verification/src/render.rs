use vstd::prelude::*;

use crate::json::{
    arr_text, entries_view, entry_text, escape_seq, items_view, obj_text, push_arr, push_escaped,
    push_obj, quote, quote_chars,
};
use crate::num::dec_str;
use crate::overpass::{kind_str, project, Element, ElementKind, ProcessedElement, ProcessedOutput};
use crate::text::{lit_chars, push_lit};

verus! {

broadcast use vstd::string::group_string_axioms;

/// The (escaped key, rendered value) pairs of a serialized tag map, one per
/// tag, in tag order.
pub open spec fn tag_entries(tags: Seq<(String, String)>) -> Seq<(Seq<char>, Seq<char>)> {
    tags.map_values(|t: (String, String)| (escape_seq(t.0@), quote(t.1@)))
}

/// The serialized form of a tag map at indentation `d`.
pub open spec fn render_tags(tags: Seq<(String, String)>, d: nat) -> Seq<char> {
    obj_text(tag_entries(tags), d)
}

/// The (key, rendered value) pairs of a serialized record, in the order they
/// are written: `lat`, `lon` and `user` appear only when present, and no key
/// for `changeset` or `uid` exists at all.
pub open spec fn element_entries(e: ProcessedElement, d: nat) -> Seq<(Seq<char>, Seq<char>)> {
    seq![("id"@, dec_str(e.id as nat))] + (if e.lat is Some {
        seq![("lat"@, e.lat->Some_0@)]
    } else {
        Seq::empty()
    }) + (if e.lon is Some {
        seq![("lon"@, e.lon->Some_0@)]
    } else {
        Seq::empty()
    }) + seq![
        ("timestamp"@, quote(e.timestamp@)),
        ("type"@, quote(kind_str(e.element_type))),
        ("version"@, dec_str(e.version as nat)),
    ] + (if e.user is Some {
        seq![("user"@, quote(e.user->Some_0@))]
    } else {
        Seq::empty()
    }) + seq![("tags"@, render_tags(e.tags@, d + 1))]
}

/// The serialized form of one record at indentation `d`.
pub open spec fn render_element(e: ProcessedElement, d: nat) -> Seq<char> {
    obj_text(element_entries(e, d), d)
}

/// The (key, rendered value) pairs of the snapshot envelope.
pub open spec fn output_entries(o: ProcessedOutput) -> Seq<(Seq<char>, Seq<char>)> {
    seq![
        ("timestamp"@, dec_str(o.timestamp as nat)),
        ("count"@, dec_str(o.count as nat)),
        (
            "elements"@,
            arr_text(o.elements@.map_values(|e: ProcessedElement| render_element(e, 2)), 1),
        ),
    ]
}

/// The serialized snapshot: the envelope pretty-printed with a single-space
/// indent.
pub open spec fn spec_serialize(o: ProcessedOutput) -> Seq<char> {
    obj_text(output_entries(o), 0)
}

/// The keys of a serialized object, in writing order.
pub open spec fn entry_keys(es: Seq<(Seq<char>, Seq<char>)>) -> Seq<Seq<char>> {
    es.map_values(|p: (Seq<char>, Seq<char>)| p.0)
}

/// A serialized record never carries a `changeset` or `uid` key, whatever the
/// source element held in those fields: the projection discards them.
pub proof fn lemma_serialized_element_drops_edit_ids(e: ProcessedElement, d: nat)
    ensures
        !entry_keys(element_entries(e, d)).contains("changeset"@),
        !entry_keys(element_entries(e, d)).contains("uid"@),
{
    reveal_strlit("id");
    reveal_strlit("lat");
    reveal_strlit("lon");
    reveal_strlit("timestamp");
    reveal_strlit("type");
    reveal_strlit("version");
    reveal_strlit("user");
    reveal_strlit("tags");
    reveal_strlit("changeset");
    reveal_strlit("uid");
    assert("timestamp"@[0] == 't' && "changeset"@[0] == 'c');
    assert("lat"@[0] == 'l' && "lon"@[0] == 'l' && "uid"@[0] == 'u');
    let es = element_entries(e, d);
    let ks = entry_keys(es);
    assert forall|i: int| 0 <= i < ks.len() implies ks[i] != "changeset"@ && ks[i] != "uid"@ by {
        assert(es[i].0 == "id"@ || es[i].0 == "lat"@ || es[i].0 == "lon"@ || es[i].0
            == "timestamp"@ || es[i].0 == "type"@ || es[i].0 == "version"@ || es[i].0 == "user"@
            || es[i].0 == "tags"@);
        assert(ks[i] == es[i].0);
    }
}

/// Optional fields are omitted entirely from a serialized record when absent,
/// and written exactly once when present.
pub proof fn lemma_optional_fields_omitted(e: ProcessedElement, d: nat)
    ensures
        e.lat is None ==> !entry_keys(element_entries(e, d)).contains("lat"@),
        e.lon is None ==> !entry_keys(element_entries(e, d)).contains("lon"@),
        e.user is None ==> !entry_keys(element_entries(e, d)).contains("user"@),
        e.lat is Some ==> entry_keys(element_entries(e, d)).contains("lat"@),
        e.lon is Some ==> entry_keys(element_entries(e, d)).contains("lon"@),
        e.user is Some ==> entry_keys(element_entries(e, d)).contains("user"@),
{
    reveal_strlit("id");
    reveal_strlit("lat");
    reveal_strlit("lon");
    reveal_strlit("timestamp");
    reveal_strlit("type");
    reveal_strlit("version");
    reveal_strlit("user");
    reveal_strlit("tags");
    let es = element_entries(e, d);
    let ks = entry_keys(es);
    if e.lat is Some {
        assert(ks[1] == "lat"@);
    }
    if e.lon is Some {
        let i: int = if e.lat is Some {
            2
        } else {
            1
        };
        assert(ks[i] == "lon"@);
    }
    if e.user is Some {
        let i: int = 4 + (if e.lat is Some {
            1int
        } else {
            0int
        }) + (if e.lon is Some {
            1int
        } else {
            0int
        });
        assert(ks[i] == "user"@);
    }
    assert("lat"@[1] == 'a' && "lon"@[1] == 'o');
    assert("type"@[0] == 't' && "tags"@[0] == 't' && "user"@[0] == 'u');
    assert forall|i: int|
        0 <= i < ks.len() implies (e.lat is None ==> ks[i] != "lat"@) && (e.lon is None ==> ks[i]
        != "lon"@) && (e.user is None ==> ks[i] != "user"@) by {
        assert(es[i].0 == "id"@ || es[i].0 == "lat"@ || es[i].0 == "lon"@ || es[i].0
            == "timestamp"@ || es[i].0 == "type"@ || es[i].0 == "version"@ || es[i].0 == "user"@
            || es[i].0 == "tags"@);
        assert((e.lat is None ==> es[i].0 != "lat"@) && (e.lon is None ==> es[i].0 != "lon"@) && (
        e.user is None ==> es[i].0 != "user"@));
        assert(ks[i] == es[i].0);
    }
}

/// The projection keeps the identity and order of the elements: projecting a
/// sequence keeps its length, and the record at each position carries the
/// identifier of the element at the same position.
pub proof fn lemma_projection_preserves_identity(elements: Seq<Element>)
    ensures
        elements.map_values(|e: Element| project(e)).len() == elements.len(),
        forall|i: int|
            0 <= i < elements.len() ==> elements.map_values(|e: Element| project(e))[i].id
                == elements[i].id,
{
}

/// The wire name of a feature kind.
pub fn kind_name(k: ElementKind) -> (r: &'static str)
    ensures
        r@ == kind_str(k),
{
    match k {
        ElementKind::Node => "node",
        ElementKind::Area => "area",
        ElementKind::Relation => "relation",
    }
}

/// The rendered tag map of one record, as entry vectors.
#[verifier::loop_isolation(false)]
fn tag_entries_chars(tags: &Vec<(String, String)>) -> (r: Vec<(Vec<char>, Vec<char>)>)
    ensures
        entries_view(r@) == tag_entries(tags@),
{
    let n = tags.len();
    let mut out: Vec<(Vec<char>, Vec<char>)> = Vec::new();
    for i in 0..n
        invariant
            out@.len() == i,
            forall|j: int|
                0 <= j < i ==> (#[trigger] out@[j]).0@ == escape_seq(tags@[j].0@) && out@[j].1@
                    == quote(tags@[j].1@),
    {
        let mut k: Vec<char> = Vec::new();
        push_escaped(&mut k, tags[i].0.as_str());
        let v = quote_chars(tags[i].1.as_str());
        out.push((k, v));
        proof {
            assert(Seq::<char>::empty() + escape_seq(tags@[i as int].0@) =~= escape_seq(
                tags@[i as int].0@,
            ));
        }
    }
    proof {
        assert(entries_view(out@) =~= tag_entries(tags@));
    }
    out
}

/// The serialized form of one record, as characters.
#[verifier::loop_isolation(false)]
fn render_element_chars(e: &ProcessedElement, d: usize) -> (r: Vec<char>)
    requires
        d < 99,
    ensures
        r@ == render_element(*e, d as nat),
{
    let mut entries: Vec<(Vec<char>, Vec<char>)> = Vec::new();
    let mut idv: Vec<char> = Vec::new();
    crate::num::push_dec(&mut idv, e.id);
    entries.push((lit_chars("id"), idv));
    match &e.lat {
        Some(t) => {
            entries.push((lit_chars("lat"), lit_chars(t.as_str())));
        },
        None => {},
    }
    match &e.lon {
        Some(t) => {
            entries.push((lit_chars("lon"), lit_chars(t.as_str())));
        },
        None => {},
    }
    entries.push((lit_chars("timestamp"), quote_chars(e.timestamp.as_str())));
    entries.push((lit_chars("type"), quote_chars(kind_name(e.element_type))));
    let mut versionv: Vec<char> = Vec::new();
    crate::num::push_dec(&mut versionv, e.version as u64);
    entries.push((lit_chars("version"), versionv));
    match &e.user {
        Some(u) => {
            entries.push((lit_chars("user"), quote_chars(u.as_str())));
        },
        None => {},
    }
    let te = tag_entries_chars(&e.tags);
    let mut tagsv: Vec<char> = Vec::new();
    push_obj(&mut tagsv, &te, d + 1);
    proof {
        assert(Seq::<char>::empty() + render_tags(e.tags@, d as nat + 1) =~= render_tags(
            e.tags@,
            d as nat + 1,
        ));
    }
    entries.push((lit_chars("tags"), tagsv));
    proof {
        assert(entries_view(entries@) =~= element_entries(*e, d as nat));
    }
    let mut out: Vec<char> = Vec::new();
    push_obj(&mut out, &entries, d);
    proof {
        assert(Seq::<char>::empty() + render_element(*e, d as nat) =~= render_element(
            *e,
            d as nat,
        ));
    }
    out
}

/// Serializes the snapshot envelope as pretty-printed JSON with a single-space
/// indent: the `timestamp`, `count` and `elements` keys in that order, each
/// record rendered by the field order and omissions `element_entries` states.
#[verifier::loop_isolation(false)]
pub fn serialize_json_pretty(output: &ProcessedOutput) -> (s: String)
    ensures
        s@ == spec_serialize(*output),
{
    let n = output.elements.len();
    let mut items: Vec<Vec<char>> = Vec::new();
    for i in 0..n
        invariant
            items@.len() == i,
            forall|j: int|
                0 <= j < i ==> (#[trigger] items@[j])@ == render_element(output.elements@[j], 2),
    {
        items.push(render_element_chars(&output.elements[i], 2));
    }
    proof {
        assert(items_view(items@) =~= output.elements@.map_values(
            |e: ProcessedElement| render_element(e, 2),
        ));
    }
    let mut arrv: Vec<char> = Vec::new();
    push_arr(&mut arrv, &items, 1);
    let mut entries: Vec<(Vec<char>, Vec<char>)> = Vec::new();
    let mut tsv: Vec<char> = Vec::new();
    crate::num::push_dec(&mut tsv, output.timestamp);
    entries.push((lit_chars("timestamp"), tsv));
    let mut countv: Vec<char> = Vec::new();
    crate::num::push_dec(&mut countv, output.count as u64);
    entries.push((lit_chars("count"), countv));
    entries.push((lit_chars("elements"), arrv));
    proof {
        assert(entries_view(entries@) =~= output_entries(*output));
    }
    let mut out: Vec<char> = Vec::new();
    push_obj(&mut out, &entries, 0);
    proof {
        assert(out@ =~= spec_serialize(*output));
    }
    crate::text::chars_to_string(&out)
}

} // verus!

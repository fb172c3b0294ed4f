//! Change payloads.
//!
//! See https://docs.bigpanda.io/reference#create-or-update-a-change for the
//! remote service's documentation of the field set.

use crate::json::{
    append_field_i64, append_field_str, append_field_str_first, append_opt_obj_field,
    append_opt_str_field, body_text, field_text, fields_tail_text, lemma_body_concat,
    lemma_concat_assoc, lemma_contains_left, lemma_contains_right, lemma_fields_tail_concat,
    lemma_push_concat, obj_text, opt_obj_field, opt_str_field, opt_strmap_view, opt_view,
    push_char, JsonV,
};
use crate::{change_url, request_headers_ok, Client, HttpMethod, HttpRequest};
use vstd::prelude::*;

verus! {

/// Change payload: one change-management event (a deployment, a maintenance
/// window). Absent optional fields are omitted from the wire payload
/// entirely; `tags` and `metadata`, when present, stay nested objects.
pub struct Change {
    /// The change's unique identifier from its original change system; the
    /// remote service upserts by it.
    pub identifier: String,
    /// Status of the change. The remote service documents the set
    /// [Planned, In Progress, Done, Canceled]; this model carries free text.
    pub status: String,
    /// Short summary/title of the change.
    pub summary: String,
    /// Start time of the change window, Unix epoch seconds.
    pub start: i64,
    /// End time of the change window, Unix epoch seconds.
    pub end: i64,
    /// (Optional) The URL of the record in the change system.
    pub ticket_url: Option<String>,
    /// (Optional) Tags, shown in the remote UI; serialized as a nested object.
    pub tags: Option<Vec<(String, String)>>,
    /// (Optional) Free-form record keeping, not shown in the remote UI;
    /// serialized as a nested object.
    pub metadata: Option<Vec<(String, String)>>,
}

/// The mathematical content of a `Change`.
pub struct ChangeView {
    pub identifier: Seq<char>,
    pub status: Seq<char>,
    pub summary: Seq<char>,
    pub start: i64,
    pub end: i64,
    pub ticket_url: Option<Seq<char>>,
    pub tags: Option<Seq<(Seq<char>, Seq<char>)>>,
    pub metadata: Option<Seq<(Seq<char>, Seq<char>)>>,
}

impl View for Change {
    type V = ChangeView;

    open spec fn view(&self) -> ChangeView {
        ChangeView {
            identifier: self.identifier@,
            status: self.status@,
            summary: self.summary@,
            start: self.start,
            end: self.end,
            ticket_url: opt_view(self.ticket_url),
            tags: opt_strmap_view(self.tags),
            metadata: opt_strmap_view(self.metadata),
        }
    }
}

/// The ordered field list of the serialized change object: the five required
/// fields, then each optional field that is set; `tags` and `metadata` stay
/// nested objects under their own keys.
pub open spec fn change_fields(c: ChangeView) -> Seq<(Seq<char>, JsonV)> {
    seq![
        ("identifier"@, JsonV::JStr(c.identifier)),
        ("status"@, JsonV::JStr(c.status)),
        ("summary"@, JsonV::JStr(c.summary)),
        ("start"@, JsonV::JInt(c.start as int)),
        ("end"@, JsonV::JInt(c.end as int)),
    ] + opt_str_field("ticket_url"@, c.ticket_url) + opt_obj_field("tags"@, c.tags)
        + opt_obj_field("metadata"@, c.metadata)
}

/// The JSON text of the serialized change.
pub open spec fn change_json(c: ChangeView) -> Seq<char> {
    obj_text(change_fields(c))
}

impl Change {
    /// Serializes the change to its JSON wire text: exactly the object whose
    /// field list `change_fields` gives.
    pub fn to_json(&self) -> (r: String)
        ensures
            r@ == change_json(self@),
    {
        let mut out = String::new();
        push_char(&mut out, '{');
        proof {
            assert(out@ =~= seq!['{']);
        }
        append_field_str_first(&mut out, "identifier", self.identifier.as_str());
        append_field_str(&mut out, "status", self.status.as_str());
        append_field_str(&mut out, "summary", self.summary.as_str());
        append_field_i64(&mut out, "start", self.start);
        append_field_i64(&mut out, "end", self.end);
        let ghost mut done: Seq<(Seq<char>, JsonV)> = seq![
            ("identifier"@, JsonV::JStr(self@.identifier)),
            ("status"@, JsonV::JStr(self@.status)),
            ("summary"@, JsonV::JStr(self@.summary)),
            ("start"@, JsonV::JInt(self@.start as int)),
            ("end"@, JsonV::JInt(self@.end as int)),
        ];
        proof {
            let s1 = seq![done[1]];
            let s12 = s1 + seq![done[2]];
            let s13 = s12 + seq![done[3]];
            let s14 = s13 + seq![done[4]];
            assert(done.drop_first() =~= s14);
            lemma_fields_tail_concat(s1, seq![done[2]]);
            lemma_fields_tail_concat(s12, seq![done[3]]);
            lemma_fields_tail_concat(s13, seq![done[4]]);
            let t1 = fields_tail_text(s1);
            let t2 = fields_tail_text(seq![done[2]]);
            let t3 = fields_tail_text(seq![done[3]]);
            let t4 = fields_tail_text(seq![done[4]]);
            let head = seq!['{'] + field_text(done[0]);
            lemma_concat_assoc(head, t1, t2);
            lemma_concat_assoc(head, t1 + t2, t3);
            lemma_concat_assoc(head, (t1 + t2) + t3, t4);
            lemma_concat_assoc(seq!['{'], field_text(done[0]), ((t1 + t2) + t3) + t4);
            assert(out@ == seq!['{'] + body_text(done));
        }
        append_opt_str_field(&mut out, "ticket_url", &self.ticket_url);
        proof {
            lemma_concat_assoc(
                seq!['{'],
                body_text(done),
                fields_tail_text(opt_str_field("ticket_url"@, opt_view(self.ticket_url))),
            );
            lemma_body_concat(done, opt_str_field("ticket_url"@, opt_view(self.ticket_url)));
            done = done + opt_str_field("ticket_url"@, opt_view(self.ticket_url));
            assert(out@ == seq!['{'] + body_text(done));
        }
        append_opt_obj_field(&mut out, "tags", &self.tags);
        proof {
            lemma_concat_assoc(
                seq!['{'],
                body_text(done),
                fields_tail_text(opt_obj_field("tags"@, opt_strmap_view(self.tags))),
            );
            lemma_body_concat(done, opt_obj_field("tags"@, opt_strmap_view(self.tags)));
            done = done + opt_obj_field("tags"@, opt_strmap_view(self.tags));
            assert(out@ == seq!['{'] + body_text(done));
        }
        append_opt_obj_field(&mut out, "metadata", &self.metadata);
        proof {
            lemma_concat_assoc(
                seq!['{'],
                body_text(done),
                fields_tail_text(opt_obj_field("metadata"@, opt_strmap_view(self.metadata))),
            );
            lemma_body_concat(done, opt_obj_field("metadata"@, opt_strmap_view(self.metadata)));
            done = done + opt_obj_field("metadata"@, opt_strmap_view(self.metadata));
            assert(out@ == seq!['{'] + body_text(done));
        }
        push_char(&mut out, '}');
        proof {
            lemma_push_concat(seq!['{'] + body_text(done), '}');
            assert(done == change_fields(self@));
            assert(out@ == obj_text(change_fields(self@)));
        }
        out
    }
}

impl Client {
    /// Builds the full request that sends this change: POST to the changes
    /// endpoint, the client's headers, and the change's JSON text as the body.
    pub fn change_request(&self, change: &Change) -> (r: HttpRequest)
        ensures
            r.method == HttpMethod::Post,
            r.url@ == "https://api.bigpanda.io/data/changes"@,
            r.body@ == change_json(change@),
            request_headers_ok(self@, r.headers@),
            self.wf() ==> r.headers@[1].1@ == "Bearer "@ + self@.auth_token,
    {
        self.build_request(HttpMethod::Post, change_url(), change.to_json())
    }
}

/// Law: `tags` and `metadata`, when present, stand in the serialized change
/// object as whole nested objects under their own keys — not flattened into
/// the top level.
pub proof fn lemma_change_nested_maps(c: ChangeView)
    ensures
        c.tags is Some ==> change_fields(c).contains(("tags"@, JsonV::JObj(c.tags->0))),
        c.metadata is Some ==> change_fields(c).contains(("metadata"@, JsonV::JObj(c.metadata->0))),
{
    let s5 = seq![
        ("identifier"@, JsonV::JStr(c.identifier)),
        ("status"@, JsonV::JStr(c.status)),
        ("summary"@, JsonV::JStr(c.summary)),
        ("start"@, JsonV::JInt(c.start as int)),
        ("end"@, JsonV::JInt(c.end as int)),
    ];
    let pre = s5 + opt_str_field("ticket_url"@, c.ticket_url);
    let pt = opt_obj_field("tags"@, c.tags);
    let pm = opt_obj_field("metadata"@, c.metadata);
    if c.tags is Some {
        let x = ("tags"@, JsonV::JObj(c.tags->0));
        assert(pt[0] == x);
        assert(pt.contains(x));
        lemma_contains_right(pre, pt, x);
        lemma_contains_left(pre + pt, pm, x);
        assert(change_fields(c) == pre + pt + pm);
    }
    if c.metadata is Some {
        let x = ("metadata"@, JsonV::JObj(c.metadata->0));
        assert(pm[0] == x);
        assert(pm.contains(x));
        lemma_contains_right(pre + pt, pm, x);
        assert(change_fields(c) == pre + pt + pm);
    }
}

} // verus!

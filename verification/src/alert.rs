//! Alert payloads.
//!
//! See https://docs.bigpanda.io/reference#alerts for the remote service's
//! documentation of the field set.

use crate::json::{
    append_field_str, append_field_str_first, append_opt_flat_fields, append_opt_i64_field,
    append_opt_str_field, body_text, field_text, fields_tail_text, flat_fields, has_key,
    lemma_body_concat, lemma_concat_assoc, lemma_contains_right, lemma_fields_tail_concat,
    lemma_has_key_concat, lemma_push_concat, obj_text, opt_flat_fields, opt_i64_field,
    opt_str_field, opt_strmap_view, opt_view, push_char, JsonV,
};
use crate::{alert_url, request_headers_ok, Client, HttpMethod, HttpRequest};
use vstd::prelude::*;

verus! {

/// Status of an alert: the closed enumeration the remote service accepts.
/// On the wire each renders as its exact lowercase name.
#[derive(Clone, Copy, Debug, PartialEq, Eq, Structural)]
pub enum AlertStatus {
    Acknowledged,
    Critical,
    Okay,
    Warning,
}

/// The lowercase wire token of an alert status.
pub open spec fn status_token(s: AlertStatus) -> Seq<char> {
    match s {
        AlertStatus::Acknowledged => "acknowledged"@,
        AlertStatus::Critical => "critical"@,
        AlertStatus::Okay => "ok"@,
        AlertStatus::Warning => "warning"@,
    }
}

/// Alert payload: one point-in-time health signal about a monitored entity.
/// Absent optional fields are omitted from the wire payload entirely; the
/// `additional` entries are flattened into the top level of the JSON object.
pub struct Alert {
    /// Application key, identifying the sending integration.
    pub app_key: String,
    /// Status of the alert.
    pub status: AlertStatus,
    /// Main object that caused the alert.
    pub host: String,
    /// (Optional) Time that the alert occurred, Unix epoch seconds (UTC).
    /// Defaults on the remote side to the receipt time when absent.
    pub timestamp: Option<i64>,
    /// (Optional) Secondary object or sub-item that caused the alert.
    pub check: Option<String>,
    /// (Optional) Brief free-text summary of the alert.
    pub description: Option<String>,
    /// (Optional) Server cluster or logical host-group, used by the remote
    /// service to correlate alerts into incidents.
    pub cluster: Option<String>,
    /// (Optional) Overrides which field titles the resulting incident.
    pub primary_property: Option<String>,
    /// (Optional) Overrides which field subtitles the resulting incident.
    pub secondary_property: Option<String>,
    /// (Optional) Open-ended extra attributes; each key/value pair appears as
    /// a top-level key of the serialized payload, sibling to the named fields.
    pub additional: Option<Vec<(String, String)>>,
}

/// The mathematical content of an `Alert`.
pub struct AlertView {
    pub app_key: Seq<char>,
    pub status: AlertStatus,
    pub host: Seq<char>,
    pub timestamp: Option<i64>,
    pub check: Option<Seq<char>>,
    pub description: Option<Seq<char>>,
    pub cluster: Option<Seq<char>>,
    pub primary_property: Option<Seq<char>>,
    pub secondary_property: Option<Seq<char>>,
    pub additional: Option<Seq<(Seq<char>, Seq<char>)>>,
}

impl View for Alert {
    type V = AlertView;

    open spec fn view(&self) -> AlertView {
        AlertView {
            app_key: self.app_key@,
            status: self.status,
            host: self.host@,
            timestamp: self.timestamp,
            check: opt_view(self.check),
            description: opt_view(self.description),
            cluster: opt_view(self.cluster),
            primary_property: opt_view(self.primary_property),
            secondary_property: opt_view(self.secondary_property),
            additional: opt_strmap_view(self.additional),
        }
    }
}

/// The ordered field list of the serialized alert object: the three required
/// fields, then each optional field that is set, then the flattened entries
/// of `additional`.
pub open spec fn alert_fields(a: AlertView) -> Seq<(Seq<char>, JsonV)> {
    seq![
        ("app_key"@, JsonV::JStr(a.app_key)),
        ("status"@, JsonV::JStr(status_token(a.status))),
        ("host"@, JsonV::JStr(a.host)),
    ] + opt_i64_field("timestamp"@, a.timestamp) + opt_str_field("check"@, a.check)
        + opt_str_field("description"@, a.description) + opt_str_field("cluster"@, a.cluster)
        + opt_str_field("primary_property"@, a.primary_property) + opt_str_field(
        "secondary_property"@,
        a.secondary_property,
    ) + opt_flat_fields(a.additional)
}

/// The JSON text of the serialized alert.
pub open spec fn alert_json(a: AlertView) -> Seq<char> {
    obj_text(alert_fields(a))
}

/// The exec token of an alert status.
pub fn status_str(s: AlertStatus) -> (r: &'static str)
    ensures
        r@ == status_token(s),
{
    match s {
        AlertStatus::Acknowledged => "acknowledged",
        AlertStatus::Critical => "critical",
        AlertStatus::Okay => "ok",
        AlertStatus::Warning => "warning",
    }
}

impl Alert {
    /// Serializes the alert to its JSON wire text: exactly the object whose
    /// field list `alert_fields` gives.
    pub fn to_json(&self) -> (r: String)
        ensures
            r@ == alert_json(self@),
    {
        let mut out = String::new();
        push_char(&mut out, '{');
        proof {
            assert(out@ =~= seq!['{']);
        }
        append_field_str_first(&mut out, "app_key", self.app_key.as_str());
        append_field_str(&mut out, "status", status_str(self.status));
        append_field_str(&mut out, "host", self.host.as_str());
        let ghost mut done: Seq<(Seq<char>, JsonV)> = seq![
            ("app_key"@, JsonV::JStr(self@.app_key)),
            ("status"@, JsonV::JStr(status_token(self@.status))),
            ("host"@, JsonV::JStr(self@.host)),
        ];
        proof {
            assert(done.drop_first() =~= seq![done[1]] + seq![done[2]]);
            lemma_fields_tail_concat(seq![done[1]], seq![done[2]]);
            lemma_concat_assoc(
                seq!['{'] + field_text(done[0]),
                fields_tail_text(seq![done[1]]),
                fields_tail_text(seq![done[2]]),
            );
            lemma_concat_assoc(
                seq!['{'],
                field_text(done[0]),
                fields_tail_text(seq![done[1]]) + fields_tail_text(seq![done[2]]),
            );
            assert(out@ == seq!['{'] + body_text(done));
        }
        append_opt_i64_field(&mut out, "timestamp", &self.timestamp);
        proof {
            lemma_concat_assoc(
                seq!['{'],
                body_text(done),
                fields_tail_text(opt_i64_field("timestamp"@, self.timestamp)),
            );
            lemma_body_concat(done, opt_i64_field("timestamp"@, self.timestamp));
            done = done + opt_i64_field("timestamp"@, self.timestamp);
            assert(out@ == seq!['{'] + body_text(done));
        }
        append_opt_str_field(&mut out, "check", &self.check);
        proof {
            lemma_concat_assoc(
                seq!['{'],
                body_text(done),
                fields_tail_text(opt_str_field("check"@, opt_view(self.check))),
            );
            lemma_body_concat(done, opt_str_field("check"@, opt_view(self.check)));
            done = done + opt_str_field("check"@, opt_view(self.check));
            assert(out@ == seq!['{'] + body_text(done));
        }
        append_opt_str_field(&mut out, "description", &self.description);
        proof {
            lemma_concat_assoc(
                seq!['{'],
                body_text(done),
                fields_tail_text(opt_str_field("description"@, opt_view(self.description))),
            );
            lemma_body_concat(done, opt_str_field("description"@, opt_view(self.description)));
            done = done + opt_str_field("description"@, opt_view(self.description));
            assert(out@ == seq!['{'] + body_text(done));
        }
        append_opt_str_field(&mut out, "cluster", &self.cluster);
        proof {
            lemma_concat_assoc(
                seq!['{'],
                body_text(done),
                fields_tail_text(opt_str_field("cluster"@, opt_view(self.cluster))),
            );
            lemma_body_concat(done, opt_str_field("cluster"@, opt_view(self.cluster)));
            done = done + opt_str_field("cluster"@, opt_view(self.cluster));
            assert(out@ == seq!['{'] + body_text(done));
        }
        append_opt_str_field(&mut out, "primary_property", &self.primary_property);
        proof {
            lemma_concat_assoc(
                seq!['{'],
                body_text(done),
                fields_tail_text(
                    opt_str_field("primary_property"@, opt_view(self.primary_property)),
                ),
            );
            lemma_body_concat(
                done,
                opt_str_field("primary_property"@, opt_view(self.primary_property)),
            );
            done = done + opt_str_field("primary_property"@, opt_view(self.primary_property));
            assert(out@ == seq!['{'] + body_text(done));
        }
        append_opt_str_field(&mut out, "secondary_property", &self.secondary_property);
        proof {
            lemma_concat_assoc(
                seq!['{'],
                body_text(done),
                fields_tail_text(
                    opt_str_field("secondary_property"@, opt_view(self.secondary_property)),
                ),
            );
            lemma_body_concat(
                done,
                opt_str_field("secondary_property"@, opt_view(self.secondary_property)),
            );
            done = done + opt_str_field("secondary_property"@, opt_view(self.secondary_property));
            assert(out@ == seq!['{'] + body_text(done));
        }
        append_opt_flat_fields(&mut out, &self.additional);
        proof {
            lemma_concat_assoc(
                seq!['{'],
                body_text(done),
                fields_tail_text(opt_flat_fields(opt_strmap_view(self.additional))),
            );
            lemma_body_concat(done, opt_flat_fields(opt_strmap_view(self.additional)));
            done = done + opt_flat_fields(opt_strmap_view(self.additional));
            assert(out@ == seq!['{'] + body_text(done));
        }
        push_char(&mut out, '}');
        proof {
            lemma_push_concat(seq!['{'] + body_text(done), '}');
            assert(done == alert_fields(self@));
            assert(out@ == obj_text(alert_fields(self@)));
        }
        out
    }
}

impl Client {
    /// Builds the full request that sends this alert: POST to the alerts
    /// endpoint, the client's headers, and the alert's JSON text as the body.
    pub fn alert_request(&self, alert: &Alert) -> (r: HttpRequest)
        ensures
            r.method == HttpMethod::Post,
            r.url@ == "https://api.bigpanda.io/data/v2/alerts"@,
            r.body@ == alert_json(alert@),
            request_headers_ok(self@, r.headers@),
            self.wf() ==> r.headers@[1].1@ == "Bearer "@ + self@.auth_token,
    {
        self.build_request(HttpMethod::Post, alert_url(), alert.to_json())
    }
}

/// The key names the alert payload itself uses at the top level.
pub open spec fn alert_named_key(k: Seq<char>) -> bool {
    ||| k == "app_key"@
    ||| k == "status"@
    ||| k == "host"@
    ||| k == "timestamp"@
    ||| k == "check"@
    ||| k == "description"@
    ||| k == "cluster"@
    ||| k == "primary_property"@
    ||| k == "secondary_property"@
}

/// Which keys the serialized alert object holds: the three required keys,
/// each optional key exactly when its field is set, and the keys of the
/// `additional` map.
pub proof fn lemma_alert_fields_key(a: AlertView, k: Seq<char>)
    ensures
        has_key(alert_fields(a), k) <==> {
            ||| k == "app_key"@
            ||| k == "status"@
            ||| k == "host"@
            ||| (a.timestamp is Some && k == "timestamp"@)
            ||| (a.check is Some && k == "check"@)
            ||| (a.description is Some && k == "description"@)
            ||| (a.cluster is Some && k == "cluster"@)
            ||| (a.primary_property is Some && k == "primary_property"@)
            ||| (a.secondary_property is Some && k == "secondary_property"@)
            ||| (a.additional is Some && exists|i: int|
                0 <= i < a.additional->0.len() && (#[trigger] a.additional->0[i].0) == k)
        },
{
    let s3 = seq![
        ("app_key"@, JsonV::JStr(a.app_key)),
        ("status"@, JsonV::JStr(status_token(a.status))),
        ("host"@, JsonV::JStr(a.host)),
    ];
    let p1 = opt_i64_field("timestamp"@, a.timestamp);
    let p2 = opt_str_field("check"@, a.check);
    let p3 = opt_str_field("description"@, a.description);
    let p4 = opt_str_field("cluster"@, a.cluster);
    let p5 = opt_str_field("primary_property"@, a.primary_property);
    let p6 = opt_str_field("secondary_property"@, a.secondary_property);
    let p7 = opt_flat_fields(a.additional);
    lemma_has_key_concat(s3, p1, k);
    lemma_has_key_concat(s3 + p1, p2, k);
    lemma_has_key_concat(s3 + p1 + p2, p3, k);
    lemma_has_key_concat(s3 + p1 + p2 + p3, p4, k);
    lemma_has_key_concat(s3 + p1 + p2 + p3 + p4, p5, k);
    lemma_has_key_concat(s3 + p1 + p2 + p3 + p4 + p5, p6, k);
    lemma_has_key_concat(s3 + p1 + p2 + p3 + p4 + p5 + p6, p7, k);
    assert(has_key(s3, k) <==> (k == "app_key"@ || k == "status"@ || k == "host"@)) by {
        if k == "app_key"@ {
            assert(s3[0].0 == k);
        }
        if k == "status"@ {
            assert(s3[1].0 == k);
        }
        if k == "host"@ {
            assert(s3[2].0 == k);
        }
    }
    if a.timestamp is Some {
        assert(p1[0].0 == "timestamp"@);
    }
    if a.check is Some {
        assert(p2[0].0 == "check"@);
    }
    if a.description is Some {
        assert(p3[0].0 == "description"@);
    }
    if a.cluster is Some {
        assert(p4[0].0 == "cluster"@);
    }
    if a.primary_property is Some {
        assert(p5[0].0 == "primary_property"@);
    }
    if a.secondary_property is Some {
        assert(p6[0].0 == "secondary_property"@);
    }
    if a.additional is Some {
        let m = a.additional->0;
        if has_key(p7, k) {
            let i = choose|i: int| 0 <= i < p7.len() && p7[i].0 == k;
            assert(m[i].0 == k);
        }
        if exists|i: int| 0 <= i < m.len() && (#[trigger] m[i].0) == k {
            let i = choose|i: int| 0 <= i < m.len() && (#[trigger] m[i].0) == k;
            assert(flat_fields(m)[i].0 == k);
        }
    }
}

/// Law: the serialized alert object always holds the three required keys, and
/// holds each optional key exactly when that field is set — provided the
/// `additional` map does not reuse one of the payload's own key names (an
/// entry under a name such as `timestamp` would reintroduce an omitted key).
pub proof fn lemma_alert_optional_keys(a: AlertView)
    requires
        a.additional is Some ==> forall|i: int|
            0 <= i < a.additional->0.len() ==> !alert_named_key(#[trigger] a.additional->0[i].0),
    ensures
        has_key(alert_fields(a), "app_key"@),
        has_key(alert_fields(a), "status"@),
        has_key(alert_fields(a), "host"@),
        has_key(alert_fields(a), "timestamp"@) <==> a.timestamp is Some,
        has_key(alert_fields(a), "check"@) <==> a.check is Some,
        has_key(alert_fields(a), "description"@) <==> a.description is Some,
        has_key(alert_fields(a), "cluster"@) <==> a.cluster is Some,
        has_key(alert_fields(a), "primary_property"@) <==> a.primary_property is Some,
        has_key(alert_fields(a), "secondary_property"@) <==> a.secondary_property is Some,
{
    reveal_strlit("app_key");
    reveal_strlit("status");
    reveal_strlit("host");
    reveal_strlit("timestamp");
    reveal_strlit("check");
    reveal_strlit("description");
    reveal_strlit("cluster");
    reveal_strlit("primary_property");
    reveal_strlit("secondary_property");
    assert("app_key"@.len() == 7);
    assert("status"@.len() == 6);
    assert("host"@.len() == 4);
    assert("timestamp"@.len() == 9);
    assert("check"@.len() == 5);
    assert("description"@.len() == 11);
    assert("cluster"@.len() == 7);
    assert("primary_property"@.len() == 16);
    assert("secondary_property"@.len() == 18);
    assert("app_key"@[0] == 'a');
    assert("cluster"@[0] == 'c');
    lemma_alert_fields_key(a, "app_key"@);
    lemma_alert_fields_key(a, "status"@);
    lemma_alert_fields_key(a, "host"@);
    lemma_alert_fields_key(a, "timestamp"@);
    lemma_alert_fields_key(a, "check"@);
    lemma_alert_fields_key(a, "description"@);
    lemma_alert_fields_key(a, "cluster"@);
    lemma_alert_fields_key(a, "primary_property"@);
    lemma_alert_fields_key(a, "secondary_property"@);
}

/// Law: the `status` field stands right after `app_key` and always holds one
/// of the four exact lowercase status tokens.
pub proof fn lemma_alert_status_token(a: AlertView)
    ensures
        alert_fields(a)[1] == ("status"@, JsonV::JStr(status_token(a.status))),
        status_token(a.status) == "acknowledged"@ || status_token(a.status) == "critical"@
            || status_token(a.status) == "ok"@ || status_token(a.status) == "warning"@,
{
    let s3 = seq![
        ("app_key"@, JsonV::JStr(a.app_key)),
        ("status"@, JsonV::JStr(status_token(a.status))),
        ("host"@, JsonV::JStr(a.host)),
    ];
    let p1 = opt_i64_field("timestamp"@, a.timestamp);
    let p2 = opt_str_field("check"@, a.check);
    let p3 = opt_str_field("description"@, a.description);
    let p4 = opt_str_field("cluster"@, a.cluster);
    let p5 = opt_str_field("primary_property"@, a.primary_property);
    let p6 = opt_str_field("secondary_property"@, a.secondary_property);
    let p7 = opt_flat_fields(a.additional);
    assert((s3 + p1)[1] == s3[1]);
    assert((s3 + p1 + p2)[1] == (s3 + p1)[1]);
    assert((s3 + p1 + p2 + p3)[1] == (s3 + p1 + p2)[1]);
    assert((s3 + p1 + p2 + p3 + p4)[1] == (s3 + p1 + p2 + p3)[1]);
    assert((s3 + p1 + p2 + p3 + p4 + p5)[1] == (s3 + p1 + p2 + p3 + p4)[1]);
    assert((s3 + p1 + p2 + p3 + p4 + p5 + p6)[1] == (s3 + p1 + p2 + p3 + p4 + p5)[1]);
    assert((s3 + p1 + p2 + p3 + p4 + p5 + p6 + p7)[1] == (s3 + p1 + p2 + p3 + p4 + p5 + p6)[1]);
}

/// Law: each entry of the `additional` map appears as a field of the
/// serialized alert object itself — flattened to the top level, sibling to
/// the named fields — holding that entry's value as a string.
pub proof fn lemma_alert_additional_flattened(a: AlertView, i: int)
    requires
        a.additional is Some,
        0 <= i < a.additional->0.len(),
    ensures
        alert_fields(a).contains((a.additional->0[i].0, JsonV::JStr(a.additional->0[i].1))),
{
    let m = a.additional->0;
    let x = (m[i].0, JsonV::JStr(m[i].1));
    let prefix = seq![
        ("app_key"@, JsonV::JStr(a.app_key)),
        ("status"@, JsonV::JStr(status_token(a.status))),
        ("host"@, JsonV::JStr(a.host)),
    ] + opt_i64_field("timestamp"@, a.timestamp) + opt_str_field("check"@, a.check)
        + opt_str_field("description"@, a.description) + opt_str_field("cluster"@, a.cluster)
        + opt_str_field("primary_property"@, a.primary_property) + opt_str_field(
        "secondary_property"@,
        a.secondary_property,
    );
    assert(flat_fields(m)[i] == x);
    assert(flat_fields(m).contains(x));
    lemma_contains_right(prefix, flat_fields(m), x);
    assert(alert_fields(a) == prefix + flat_fields(m));
}

} // verus!


use vstd::prelude::*;

use crate::configuration::DataType;
use crate::dates::{millis_to_secs_floor, parse_rfc3339, rfc3339_parse};
use crate::errors::Error;
use crate::json::{
    lemma_insert_preserves_all, lemma_obj_key_idx, lemma_swap_remove_preserves_all, obj_has_key,
    obj_insert, obj_spec_value, obj_swap_remove, obj_uniq, JsonValue,
};
use crate::output::{Fields, Output, OutputWriter, Tuple};

verus! {

/// The topic of decoded event-log rows.
pub const EVTX_TABLE_NAME: &'static str = "evtx";

/// The field that orders event-log rows.
pub const EVTX_SORT_FIELD: &'static str = "System.TimeCreated";

#[verifier::external_type_specification]
#[verifier::external_body]
pub struct ExSerdeValue(serde_json::Value);

#[verifier::external_type_specification]
#[verifier::external_body]
pub struct ExSerdeNumber(serde_json::Number);

/// Relies on serde_json's number accessors: a non-negative integer becomes
/// unsigned, another integer signed, and any remaining number a float with
/// its bits and its serde_json text; a non-finite number becomes null.
#[verifier::external_body]
fn from_serde_number(n: &serde_json::Number) -> (r: JsonValue) {
    if let Some(u) = n.as_u64() { return JsonValue::Uint(u) }
    if let Some(i) = n.as_i64() { return JsonValue::Int(i) }
    let f = n.as_f64().and_then(|x| serde_json::Number::from_f64(x).map(|m| (x.to_bits(), m.to_string())));
    match f {
        Some((bits, repr)) => JsonValue::Float { bits, repr },
        None => JsonValue::Null,
    }
}

/// Relies on serde_json's Value: rebuilds a document as the library's JSON
/// type, variant for variant, moving the carried values.
#[verifier::external_body]
fn from_serde_value(v: &serde_json::Value) -> (r: JsonValue) {
    match v {
        serde_json::Value::Null => JsonValue::Null,
        serde_json::Value::Bool(b) => JsonValue::Bool(*b),
        serde_json::Value::Number(n) => from_serde_number(n),
        serde_json::Value::String(s) => JsonValue::Text(s.clone()),
        serde_json::Value::Array(items) => JsonValue::Array(items.iter().map(from_serde_value).collect()),
        serde_json::Value::Object(map) => JsonValue::Object(map.iter().map(|(k, x)| (k.clone(), from_serde_value(x))).collect()),
    }
}

/// Relies on the evtx crate: parses the binary event log at `path` with
/// attribute separation enabled and returns, for each record, its JSON
/// document or that record's error text. What comes back depends on what is
/// on disk, so nothing more is promised.
#[verifier::external_body]
fn read_evtx_records(path: &str) -> (r: Result<Vec<Result<serde_json::Value, String>>, Error>) {
    let parser = evtx::EvtxParser::from_path(path).map_err(|e| Error::Decoder(e.to_string()))?;
    let settings = evtx::ParserSettings::new().separate_json_attributes(true);
    let mut parser = parser.with_configuration(settings);
    let records = parser.records_json_value().map(|rec| rec.map(|r| r.data).map_err(|e| e.to_string())).collect();
    Ok(records)
}

/// The `System` object of a record, reached through `Event`.
pub open spec fn evtx_system(event: JsonValue) -> Seq<(String, JsonValue)> {
    obj_spec_value(
        obj_spec_value(event->Object_0@, "Event"@)->Object_0@,
        "System"@,
    )->Object_0@
}

/// The `TimeCreated_attributes.SystemTime` text of a record.
pub open spec fn evtx_systime(event: JsonValue) -> Seq<char> {
    obj_spec_value(
        obj_spec_value(evtx_system(event), "TimeCreated_attributes"@)->Object_0@,
        "SystemTime"@,
    )->Text_0@
}

/// Whether the record's spine is in place: an object whose `Event` is an
/// object whose `System` is an object.
pub open spec fn evtx_shape(event: JsonValue) -> bool {
    let ev = event->Object_0@;
    let ein = obj_spec_value(ev, "Event"@)->Object_0@;
    &&& event is Object
    &&& obj_has_key(ev, "Event"@)
    &&& obj_spec_value(ev, "Event"@) is Object
    &&& obj_has_key(ein, "System"@)
    &&& obj_spec_value(ein, "System"@) is Object
}

/// Whether the `Security_attributes` section, when present, is an object
/// holding `UserID`.
pub open spec fn evtx_sec_ok(event: JsonValue) -> bool {
    let sys = evtx_system(event);
    let sec = obj_spec_value(sys, "Security_attributes"@)->Object_0@;
    obj_has_key(sys, "Security_attributes"@) ==> (obj_spec_value(sys, "Security_attributes"@)
        is Object && obj_has_key(sec, "UserID"@))
}

/// Whether a record has the shape the normalizer expects: the spine, the
/// security section when present, and a `TimeCreated_attributes` object
/// whose `SystemTime` is an RFC 3339 text.
pub open spec fn evtx_event_ok(event: JsonValue) -> bool {
    let sys = evtx_system(event);
    let tc = obj_spec_value(sys, "TimeCreated_attributes"@)->Object_0@;
    &&& evtx_shape(event)
    &&& evtx_sec_ok(event)
    &&& obj_has_key(sys, "TimeCreated_attributes"@)
    &&& obj_spec_value(sys, "TimeCreated_attributes"@) is Object
    &&& obj_has_key(tc, "SystemTime"@)
    &&& obj_spec_value(tc, "SystemTime"@) is Text
    &&& rfc3339_parse(evtx_systime(event)) is Some
}

/// The `System` keys the normalizer reads, removes or writes; every other
/// member passes through untouched.
pub open spec fn evtx_touched_key(k: Seq<char>) -> bool {
    ||| k == "Provider"@
    ||| k == "Execution"@
    ||| k == "UserID"@
    ||| k == "TimeCreated"@
    ||| k == "Provider_attributes"@
    ||| k == "Execution_attributes"@
    ||| k == "Security_attributes"@
    ||| k == "TimeCreated_attributes"@
}

/// Whether the objects the normalizer touches all have distinct keys.
pub open spec fn evtx_uniq(event: JsonValue) -> bool {
    let ev = event->Object_0@;
    let ein = obj_spec_value(ev, "Event"@)->Object_0@;
    let sys = evtx_system(event);
    let sec = obj_spec_value(sys, "Security_attributes"@)->Object_0@;
    let tc = obj_spec_value(sys, "TimeCreated_attributes"@)->Object_0@;
    obj_uniq(ev) && obj_uniq(ein) && obj_uniq(sys) && obj_uniq(sec) && obj_uniq(tc)
}

/// The keys the normalizer inserts never collide with the separated
/// attribute keys it removes: their lengths already differ.
proof fn lemma_evtx_keys_distinct()
    ensures
        "Provider"@ != "Provider_attributes"@ && "Provider"@ != "Execution_attributes"@
            && "Provider"@ != "Security_attributes"@ && "Provider"@ != "TimeCreated_attributes"@,
        "Execution"@ != "Provider_attributes"@ && "Execution"@ != "Execution_attributes"@
            && "Execution"@ != "Security_attributes"@ && "Execution"@
            != "TimeCreated_attributes"@,
        "UserID"@ != "Provider_attributes"@ && "UserID"@ != "Execution_attributes"@ && "UserID"@
            != "Security_attributes"@ && "UserID"@ != "TimeCreated_attributes"@,
        "TimeCreated"@ != "Provider_attributes"@ && "TimeCreated"@ != "Execution_attributes"@
            && "TimeCreated"@ != "Security_attributes"@ && "TimeCreated"@
            != "TimeCreated_attributes"@,
        "Provider_attributes"@ != "Execution_attributes"@ && "Provider_attributes"@
            != "Security_attributes"@ && "Provider_attributes"@ != "TimeCreated_attributes"@,
        "Execution_attributes"@ != "Security_attributes"@ && "Execution_attributes"@
            != "TimeCreated_attributes"@,
        "Security_attributes"@ != "TimeCreated_attributes"@,
{
    reveal_strlit("Provider");
    reveal_strlit("Execution");
    reveal_strlit("UserID");
    reveal_strlit("TimeCreated");
    reveal_strlit("Provider_attributes");
    reveal_strlit("Execution_attributes");
    reveal_strlit("Security_attributes");
    reveal_strlit("TimeCreated_attributes");
    assert("Provider"@.len() == 8);
    assert("Execution"@.len() == 9);
    assert("UserID"@.len() == 6);
    assert("TimeCreated"@.len() == 11);
    assert("Provider_attributes"@.len() == 19);
    assert("Execution_attributes"@.len() == 20);
    assert("Security_attributes"@.len() == 19);
    assert("TimeCreated_attributes"@.len() == 22);
    assert("Provider_attributes"@[0] == 'P');
    assert("Security_attributes"@[0] == 'S');
}

/// The keys the normalizer inserts are also pairwise distinct.
proof fn lemma_evtx_new_keys_distinct()
    ensures
        "Provider"@ != "Execution"@ && "Provider"@ != "UserID"@ && "Provider"@ != "TimeCreated"@,
        "Execution"@ != "UserID"@ && "Execution"@ != "TimeCreated"@,
        "UserID"@ != "TimeCreated"@,
{
    reveal_strlit("Provider");
    reveal_strlit("Execution");
    reveal_strlit("UserID");
    reveal_strlit("TimeCreated");
    assert("Provider"@.len() == 8);
    assert("Execution"@.len() == 9);
    assert("UserID"@.len() == 6);
    assert("TimeCreated"@.len() == 11);
}

/// Normalize one event-log record: keep the `Event` object, move the
/// separated `Provider`, `Execution` and `UserID` attributes up into
/// `System` with their values, leave every other member unchanged, and
/// replace `TimeCreated_attributes.SystemTime` with `TimeCreated` as the
/// canonical UTC text. The sort key is the whole seconds of that instant.
/// A malformed record comes back as the error naming what broke, and, for
/// records whose objects carry no duplicate keys, success is exactly
/// well-formedness.
#[verifier::rlimit(100)]
pub fn format_event(event: JsonValue) -> (r: Result<(JsonValue, i64), Error>)
    ensures
        r matches Ok((v, sd)) ==> v is Object,
        evtx_uniq(event) ==> ((r is Ok) <==> evtx_event_ok(event)),
        !(event is Object) ==> (r matches Err(Error::JsonNotAnObject(f)) && f@ == "event"@),
        event is Object && !obj_has_key(event->Object_0@, "Event"@) ==> (r matches Err(
            Error::Evtx(m),
        ) && m@ == "Event data not found"@),
        event is Object && obj_has_key(event->Object_0@, "Event"@) && !(obj_spec_value(
            event->Object_0@,
            "Event"@,
        ) is Object) ==> (r matches Err(Error::JsonNotAnObject(f)) && f@ == "Event"@),
        ({
            let ein = obj_spec_value(event->Object_0@, "Event"@)->Object_0@;
            event is Object && obj_has_key(event->Object_0@, "Event"@) && obj_spec_value(
                event->Object_0@,
                "Event"@,
            ) is Object && !obj_has_key(ein, "System"@)
        }) ==> (r matches Err(Error::Evtx(m)) && m@ == "System data not found"@),
        ({
            let ein = obj_spec_value(event->Object_0@, "Event"@)->Object_0@;
            event is Object && obj_has_key(event->Object_0@, "Event"@) && obj_spec_value(
                event->Object_0@,
                "Event"@,
            ) is Object && obj_has_key(ein, "System"@) && !(obj_spec_value(ein, "System"@)
                is Object)
        }) ==> (r matches Err(Error::JsonNotAnObject(f)) && f@ == "Event.System"@),
        ({
            let sys0 = evtx_system(event);
            evtx_uniq(event) && evtx_shape(event) && obj_has_key(sys0, "Security_attributes"@)
                && !(obj_spec_value(sys0, "Security_attributes"@) is Object)
        }) ==> (r matches Err(Error::JsonNotAnObject(f)) && f@
            == "Event.System.Security_attributes"@),
        ({
            let sys0 = evtx_system(event);
            let sec = obj_spec_value(sys0, "Security_attributes"@)->Object_0@;
            evtx_uniq(event) && evtx_shape(event) && obj_has_key(sys0, "Security_attributes"@)
                && obj_spec_value(sys0, "Security_attributes"@) is Object && !obj_has_key(
                sec,
                "UserID"@,
            )
        }) ==> (r matches Err(Error::JsonNotAnObject(f)) && f@
            == "Event.System.Security_attributes.UserID"@),
        ({
            let sys0 = evtx_system(event);
            evtx_uniq(event) && evtx_shape(event) && evtx_sec_ok(event) && (!obj_has_key(
                sys0,
                "TimeCreated_attributes"@,
            ) || !(obj_spec_value(sys0, "TimeCreated_attributes"@) is Object))
        }) ==> (r matches Err(Error::JsonNotAnObject(f)) && f@
            == "Event.System.TimeCreated_attributes"@),
        ({
            let sys0 = evtx_system(event);
            let tc = obj_spec_value(sys0, "TimeCreated_attributes"@)->Object_0@;
            evtx_uniq(event) && evtx_shape(event) && evtx_sec_ok(event) && obj_has_key(
                sys0,
                "TimeCreated_attributes"@,
            ) && obj_spec_value(sys0, "TimeCreated_attributes"@) is Object && !obj_has_key(
                tc,
                "SystemTime"@,
            )
        }) ==> (r matches Err(Error::JsonNotAnObject(f)) && f@
            == "Event.System.TimeCreated_attributes.SystemTime"@),
        ({
            let sys0 = evtx_system(event);
            let tc = obj_spec_value(sys0, "TimeCreated_attributes"@)->Object_0@;
            evtx_uniq(event) && evtx_shape(event) && evtx_sec_ok(event) && obj_has_key(
                sys0,
                "TimeCreated_attributes"@,
            ) && obj_spec_value(sys0, "TimeCreated_attributes"@) is Object && obj_has_key(
                tc,
                "SystemTime"@,
            ) && !(obj_spec_value(tc, "SystemTime"@) is Text)
        }) ==> (r matches Err(Error::JsonNotAString(f)) && f@
            == "Event.System.TimeCreated_attributes.SystemTime"@),
        ({
            let sys0 = evtx_system(event);
            let tc = obj_spec_value(sys0, "TimeCreated_attributes"@)->Object_0@;
            evtx_uniq(event) && evtx_shape(event) && evtx_sec_ok(event) && obj_has_key(
                sys0,
                "TimeCreated_attributes"@,
            ) && obj_spec_value(sys0, "TimeCreated_attributes"@) is Object && obj_has_key(
                tc,
                "SystemTime"@,
            ) && obj_spec_value(tc, "SystemTime"@) is Text && rfc3339_parse(evtx_systime(event))
                is None
        }) ==> (r matches Err(Error::ParseDate(s)) && s@ == evtx_systime(event)),
        evtx_event_ok(event) && evtx_uniq(event) ==> (r matches Ok((v, sd)) ==> ({
            let millis = rfc3339_parse(evtx_systime(event)).unwrap().0;
            let sys0 = evtx_system(event);
            let ein = obj_spec_value(event->Object_0@, "Event"@)->Object_0@;
            let sys = obj_spec_value(v->Object_0@, "System"@)->Object_0@;
            &&& sd == millis as int / 1000
            &&& obj_has_key(v->Object_0@, "System"@)
            &&& obj_spec_value(v->Object_0@, "System"@) is Object
            &&& obj_has_key(sys, "TimeCreated"@)
            &&& (obj_spec_value(sys, "TimeCreated"@) matches JsonValue::Text(t) && t@
                == rfc3339_parse(evtx_systime(event)).unwrap().1)
            &&& !obj_has_key(sys, "TimeCreated_attributes"@)
            &&& !obj_has_key(sys, "Provider_attributes"@)
            &&& !obj_has_key(sys, "Execution_attributes"@)
            &&& !obj_has_key(sys, "Security_attributes"@)
            &&& (obj_has_key(sys0, "Provider_attributes"@) ==> obj_has_key(sys, "Provider"@)
                && obj_spec_value(sys, "Provider"@) == obj_spec_value(
                sys0,
                "Provider_attributes"@,
            ))
            &&& (obj_has_key(sys0, "Execution_attributes"@) ==> obj_has_key(sys, "Execution"@)
                && obj_spec_value(sys, "Execution"@) == obj_spec_value(
                sys0,
                "Execution_attributes"@,
            ))
            &&& (obj_has_key(sys0, "Security_attributes"@) ==> obj_has_key(sys, "UserID"@)
                && obj_spec_value(sys, "UserID"@) == obj_spec_value(
                obj_spec_value(sys0, "Security_attributes"@)->Object_0@,
                "UserID"@,
            ))
            &&& (forall|k: Seq<char>|
                !evtx_touched_key(k) ==> #[trigger] obj_has_key(sys, k) == obj_has_key(sys0, k))
            &&& (forall|k: Seq<char>|
                !evtx_touched_key(k) && obj_has_key(sys0, k) ==> #[trigger] obj_spec_value(sys, k)
                    == obj_spec_value(sys0, k))
            &&& (forall|k: Seq<char>|
                k != "System"@ ==> #[trigger] obj_has_key(v->Object_0@, k) == obj_has_key(ein, k))
            &&& (forall|k: Seq<char>|
                k != "System"@ && obj_has_key(ein, k) ==> #[trigger] obj_spec_value(
                    v->Object_0@,
                    k,
                ) == obj_spec_value(ein, k))
        })),
{
    let ghost uq = evtx_uniq(event);
    proof {
        lemma_evtx_keys_distinct();
        lemma_evtx_new_keys_distinct();
    }
    let mut ev = match event {
        JsonValue::Object(entries) => entries,
        _ => {
            return Err(Error::JsonNotAnObject(String::from_str("event")));
        },
    };
    let inner = match obj_swap_remove(&mut ev, "Event") {
        Some(v) => v,
        None => {
            return Err(Error::Evtx(String::from_str("Event data not found")));
        },
    };
    let mut evob = match inner {
        JsonValue::Object(entries) => entries,
        _ => {
            return Err(Error::JsonNotAnObject(String::from_str("Event")));
        },
    };
    let ghost evob0 = evob@;
    let sys_idx = crate::json::obj_find(&evob, "System");
    proof {
        lemma_obj_key_idx(evob0, "System"@);
    }
    if sys_idx >= evob.len() {
        return Err(Error::Evtx(String::from_str("System data not found")));
    }
    let sys_pair = evob.remove(sys_idx);
    let sys_name = sys_pair.0;
    let mut sys = match sys_pair.1 {
        JsonValue::Object(entries) => entries,
        _ => {
            return Err(Error::JsonNotAnObject(String::from_str("Event.System")));
        },
    };
    let ghost s0 = sys@;
    proof {
        assert(s0 == evtx_system(event));
        assert(evtx_shape(event));
    }

    // move the separated provider attributes up
    let pv = obj_swap_remove(&mut sys, "Provider_attributes");
    let ghost s1 = sys@;
    proof {
        if uq {
            lemma_swap_remove_preserves_all(s0, "Provider_attributes"@);
        }
    }
    if let Some(val) = pv {
        let pkey = String::from_str("Provider");
        let ghost gkey = pkey;
        let ghost gval = val;
        obj_insert(&mut sys, pkey, val);
        proof {
            if uq {
                lemma_insert_preserves_all(s1, gkey, gval);
            }
        }
    }
    let ghost s2 = sys@;

    // move the separated execution attributes up
    let xv = obj_swap_remove(&mut sys, "Execution_attributes");
    let ghost s3 = sys@;
    proof {
        if uq {
            lemma_swap_remove_preserves_all(s2, "Execution_attributes"@);
        }
    }
    if let Some(val) = xv {
        let xkey = String::from_str("Execution");
        let ghost gkey = xkey;
        let ghost gval = val;
        obj_insert(&mut sys, xkey, val);
        proof {
            if uq {
                lemma_insert_preserves_all(s3, gkey, gval);
            }
        }
    }
    let ghost s4 = sys@;

    // the security attributes carry only the user: lift it out
    let sv = obj_swap_remove(&mut sys, "Security_attributes");
    let ghost s5 = sys@;
    proof {
        if uq {
            lemma_swap_remove_preserves_all(s4, "Security_attributes"@);
            assert(obj_has_key(s4, "Security_attributes"@) == obj_has_key(
                s0,
                "Security_attributes"@,
            ));
        }
    }
    if let Some(secval) = sv {
        let mut sec = match secval {
            JsonValue::Object(entries) => entries,
            _ => {
                return Err(
                    Error::JsonNotAnObject(String::from_str("Event.System.Security_attributes")),
                );
            },
        };
        let uid = match obj_swap_remove(&mut sec, "UserID") {
            Some(u) => u,
            None => {
                return Err(
                    Error::JsonNotAnObject(
                        String::from_str("Event.System.Security_attributes.UserID"),
                    ),
                );
            },
        };
        let ukey = String::from_str("UserID");
        let ghost gkey = ukey;
        let ghost gval = uid;
        obj_insert(&mut sys, ukey, uid);
        proof {
            if uq {
                lemma_insert_preserves_all(s5, gkey, gval);
            }
        }
    }
    let ghost s6 = sys@;
    proof {
        if uq {
            assert(evtx_sec_ok(event));
            assert(obj_has_key(s6, "TimeCreated_attributes"@) == obj_has_key(
                s0,
                "TimeCreated_attributes"@,
            ));
        }
    }

    // replace the separated creation time with the canonical UTC text
    let tcv = match obj_swap_remove(&mut sys, "TimeCreated_attributes") {
        Some(v) => v,
        None => {
            return Err(
                Error::JsonNotAnObject(String::from_str("Event.System.TimeCreated_attributes")),
            );
        },
    };
    let ghost s7 = sys@;
    proof {
        if uq {
            lemma_swap_remove_preserves_all(s6, "TimeCreated_attributes"@);
            assert(tcv == obj_spec_value(s0, "TimeCreated_attributes"@));
        }
    }
    let mut tco = match tcv {
        JsonValue::Object(entries) => entries,
        _ => {
            return Err(
                Error::JsonNotAnObject(String::from_str("Event.System.TimeCreated_attributes")),
            );
        },
    };
    let ghost tco0 = tco@;
    let st = match obj_swap_remove(&mut tco, "SystemTime") {
        Some(v) => v,
        None => {
            return Err(
                Error::JsonNotAnObject(
                    String::from_str("Event.System.TimeCreated_attributes.SystemTime"),
                ),
            );
        },
    };
    let sts = match st {
        JsonValue::Text(s) => s,
        _ => {
            return Err(
                Error::JsonNotAString(
                    String::from_str("Event.System.TimeCreated_attributes.SystemTime"),
                ),
            );
        },
    };
    proof {
        if uq {
            assert(sts@ == evtx_systime(event));
        }
    }
    let (millis, text) = match parse_rfc3339(sts.as_str()) {
        Some(p) => p,
        None => {
            return Err(Error::ParseDate(sts));
        },
    };
    let sort_data = millis_to_secs_floor(millis);
    let tkey = String::from_str("TimeCreated");
    let ghost gtkey = tkey;
    let ghost gtval = JsonValue::Text(text);
    obj_insert(&mut sys, tkey, JsonValue::Text(text));
    let ghost s8 = sys@;
    proof {
        if uq {
            lemma_insert_preserves_all(s7, gtkey, gtval);
            assert(evtx_event_ok(event));
            // every untouched member of System keeps its place and value
            assert forall|k: Seq<char>| !evtx_touched_key(k) implies #[trigger] obj_has_key(s8, k)
                == obj_has_key(s0, k) by {
                assert(obj_has_key(s1, k) == obj_has_key(s0, k));
                assert(obj_has_key(s2, k) == obj_has_key(s1, k));
                assert(obj_has_key(s3, k) == obj_has_key(s2, k));
                assert(obj_has_key(s4, k) == obj_has_key(s3, k));
                assert(obj_has_key(s5, k) == obj_has_key(s4, k));
                assert(obj_has_key(s6, k) == obj_has_key(s5, k));
                assert(obj_has_key(s7, k) == obj_has_key(s6, k));
                assert(obj_has_key(s8, k) == obj_has_key(s7, k));
            }
            assert forall|k: Seq<char>| !evtx_touched_key(k) && obj_has_key(s0, k) implies #[trigger] obj_spec_value(
                s8,
                k,
            ) == obj_spec_value(s0, k) by {
                assert(obj_has_key(s1, k) == obj_has_key(s0, k));
                assert(obj_has_key(s2, k) == obj_has_key(s1, k));
                assert(obj_has_key(s3, k) == obj_has_key(s2, k));
                assert(obj_has_key(s4, k) == obj_has_key(s3, k));
                assert(obj_has_key(s5, k) == obj_has_key(s4, k));
                assert(obj_has_key(s6, k) == obj_has_key(s5, k));
                assert(obj_has_key(s7, k) == obj_has_key(s6, k));
                assert(obj_spec_value(s1, k) == obj_spec_value(s0, k));
                assert(obj_spec_value(s2, k) == obj_spec_value(s1, k));
                assert(obj_spec_value(s3, k) == obj_spec_value(s2, k));
                assert(obj_spec_value(s4, k) == obj_spec_value(s3, k));
                assert(obj_spec_value(s5, k) == obj_spec_value(s4, k));
                assert(obj_spec_value(s6, k) == obj_spec_value(s5, k));
                assert(obj_spec_value(s7, k) == obj_spec_value(s6, k));
                assert(obj_spec_value(s8, k) == obj_spec_value(s7, k));
            }
            // the moved attributes arrive under their new names
            if obj_has_key(s0, "Provider_attributes"@) {
                assert(obj_has_key(s2, "Provider"@));
                assert(obj_spec_value(s2, "Provider"@) == obj_spec_value(
                    s0,
                    "Provider_attributes"@,
                ));
                assert(obj_has_key(s3, "Provider"@) && obj_spec_value(s3, "Provider"@)
                    == obj_spec_value(s2, "Provider"@));
                assert(obj_has_key(s4, "Provider"@) && obj_spec_value(s4, "Provider"@)
                    == obj_spec_value(s3, "Provider"@));
                assert(obj_has_key(s5, "Provider"@) && obj_spec_value(s5, "Provider"@)
                    == obj_spec_value(s4, "Provider"@));
                assert(obj_has_key(s6, "Provider"@) && obj_spec_value(s6, "Provider"@)
                    == obj_spec_value(s5, "Provider"@));
                assert(obj_has_key(s7, "Provider"@) && obj_spec_value(s7, "Provider"@)
                    == obj_spec_value(s6, "Provider"@));
                assert(obj_has_key(s8, "Provider"@) && obj_spec_value(s8, "Provider"@)
                    == obj_spec_value(s7, "Provider"@));
            }
            if obj_has_key(s0, "Execution_attributes"@) {
                assert(obj_has_key(s2, "Execution_attributes"@));
                assert(obj_has_key(s4, "Execution"@));
                assert(obj_spec_value(s4, "Execution"@) == obj_spec_value(
                    s0,
                    "Execution_attributes"@,
                ));
                assert(obj_has_key(s5, "Execution"@) && obj_spec_value(s5, "Execution"@)
                    == obj_spec_value(s4, "Execution"@));
                assert(obj_has_key(s6, "Execution"@) && obj_spec_value(s6, "Execution"@)
                    == obj_spec_value(s5, "Execution"@));
                assert(obj_has_key(s7, "Execution"@) && obj_spec_value(s7, "Execution"@)
                    == obj_spec_value(s6, "Execution"@));
                assert(obj_has_key(s8, "Execution"@) && obj_spec_value(s8, "Execution"@)
                    == obj_spec_value(s7, "Execution"@));
            }
            if obj_has_key(s0, "Security_attributes"@) {
                assert(obj_has_key(s4, "Security_attributes"@));
                assert(obj_has_key(s6, "UserID"@));
                assert(obj_spec_value(s6, "UserID"@) == obj_spec_value(
                    obj_spec_value(s0, "Security_attributes"@)->Object_0@,
                    "UserID"@,
                ));
                assert(obj_has_key(s7, "UserID"@) && obj_spec_value(s7, "UserID"@)
                    == obj_spec_value(s6, "UserID"@));
                assert(obj_has_key(s8, "UserID"@) && obj_spec_value(s8, "UserID"@)
                    == obj_spec_value(s7, "UserID"@));
            }
        }
    }

    // put the normalized section back where it stood
    let new_sys = JsonValue::Object(sys);
    evob.insert(sys_idx, (sys_name, new_sys));
    proof {
        assert(evob@ =~= evob0.update(sys_idx as int, (evob0[sys_idx as int].0, new_sys)));
        assert(evob@ =~= crate::json::obj_spec_insert(evob0, sys_name, new_sys));
        if uq {
            lemma_insert_preserves_all(evob0, sys_name, new_sys);
            assert(obj_has_key(evob@, "System"@));
            assert(obj_spec_value(evob@, "System"@) == new_sys);
            assert forall|k: Seq<char>| k != "System"@ implies #[trigger] obj_has_key(evob@, k)
                == obj_has_key(evob0, k) by {
                assert(obj_has_key(crate::json::obj_spec_insert(evob0, sys_name, new_sys), k)
                    == obj_has_key(evob0, k));
            }
            assert forall|k: Seq<char>| k != "System"@ && obj_has_key(evob0, k) implies #[trigger] obj_spec_value(
                evob@,
                k,
            ) == obj_spec_value(evob0, k) by {
                assert(obj_spec_value(crate::json::obj_spec_insert(evob0, sys_name, new_sys), k)
                    == obj_spec_value(evob0, k));
            }
        }
    }
    Ok((JsonValue::Object(evob), sort_data))
}

/// The typed event-log fields known in advance of decoding.
pub fn evtx_fields() -> (r: Vec<(String, DataType)>)
    ensures
        r@.len() == 15,
        r@[0].0@ == "System.Execution.ProcessID"@ && r@[0].1 == DataType::Int64,
        r@[1].0@ == "System.Execution.ThreadID"@ && r@[1].1 == DataType::Int64,
        r@[2].0@ == "System.EventID"@ && r@[2].1 == DataType::Uint16,
        r@[3].0@ == "System.Version"@ && r@[3].1 == DataType::Int64,
        r@[4].0@ == "System.Level"@ && r@[4].1 == DataType::Uint8,
        r@[5].0@ == "System.Task"@ && r@[5].1 == DataType::Int64,
        r@[6].0@ == "System.Opcode"@ && r@[6].1 == DataType::Int64,
        r@[7].0@ == "System.Keywords"@ && r@[7].1 == DataType::String,
        r@[8].0@ == "System.UserID"@ && r@[8].1 == DataType::String,
        r@[9].0@ == "System.EventRecordID"@ && r@[9].1 == DataType::Int64,
        r@[10].0@ == "System.Provider.Name"@ && r@[10].1 == DataType::String,
        r@[11].0@ == "System.Provider.Guid"@ && r@[11].1 == DataType::String,
        r@[12].0@ == "System.Channel"@ && r@[12].1 == DataType::String,
        r@[13].0@ == "System.Computer"@ && r@[13].1 == DataType::String,
        r@[14].0@ == "System.TimeCreated"@ && r@[14].1 == DataType::Date,
{
    let mut r: Vec<(String, DataType)> = Vec::new();
    r.push((String::from_str("System.Execution.ProcessID"), DataType::Int64));
    r.push((String::from_str("System.Execution.ThreadID"), DataType::Int64));
    r.push((String::from_str("System.EventID"), DataType::Uint16));
    r.push((String::from_str("System.Version"), DataType::Int64));
    r.push((String::from_str("System.Level"), DataType::Uint8));
    r.push((String::from_str("System.Task"), DataType::Int64));
    r.push((String::from_str("System.Opcode"), DataType::Int64));
    r.push((String::from_str("System.Keywords"), DataType::String));
    r.push((String::from_str("System.UserID"), DataType::String));
    r.push((String::from_str("System.EventRecordID"), DataType::Int64));
    r.push((String::from_str("System.Provider.Name"), DataType::String));
    r.push((String::from_str("System.Provider.Guid"), DataType::String));
    r.push((String::from_str("System.Channel"), DataType::String));
    r.push((String::from_str("System.Computer"), DataType::String));
    r.push((String::from_str("System.TimeCreated"), DataType::Date));
    r
}

/// Decode one binary event log and write one envelope per record to the
/// fan-out; the row count comes back. A record that does not read or
/// normalize aborts the file. What the file holds depends on the file
/// system; the per-record guarantees are those of `format_event`.
#[verifier::loop_isolation(false)]
pub fn parse_evtx<W: OutputWriter>(
    path: &str,
    fields: &Fields,
    output: &mut Output<W>,
) -> (r: Result<usize, Error>)
    requires
        old(output).num_rows == 0,
    ensures
        r matches Ok(n) ==> n == final(output).num_rows,
{
    let records = match read_evtx_records(path) {
        Ok(rs) => rs,
        Err(e) => return Err(e),
    };
    let mut num_rows: usize = 0;
    let mut i: usize = 0;
    while i < records.len()
        invariant
            i <= records@.len(),
            num_rows == output.num_rows,
            num_rows <= i,
        decreases records.len() - i,
    {
        let rec = &records[i];
        let value = match rec {
            Ok(v) => v,
            Err(msg) => {
                return Err(Error::Decoder(msg.clone()));
            },
        };
        let event = from_serde_value(value);
        match format_event(event) {
            Ok((data, sort_data)) => {
                let mut tuple = Tuple::new(fields);
                let set = tuple.set_data(data, Some(sort_data));
                if let Err(e) = set {
                    return Err(e);
                }
                if let Err(e) = output.write(&tuple) {
                    return Err(e);
                }
                num_rows = num_rows + 1;
            },
            Err(e) => {
                return Err(e);
            },
        }
        i = i + 1;
    }
    Ok(num_rows)
}

} // verus!

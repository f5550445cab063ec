use vstd::prelude::*;
use vstd::string::StringExecFns;

use crate::errors::Error;
use crate::json::{obj_lookup, obj_get, json_doc, JsonValue};
use crate::num::{dec_str, dec_val, is_digits};

verus! {

/// The three feature kinds a response element can carry, exactly one each.
#[derive(Debug, Clone, Copy, PartialEq, Eq, Structural)]
pub enum ElementKind {
    Node,
    Area,
    Relation,
}

/// The wire name of a feature kind.
pub open spec fn kind_str(k: ElementKind) -> Seq<char> {
    match k {
        ElementKind::Node => "node"@,
        ElementKind::Area => "area"@,
        ElementKind::Relation => "relation"@,
    }
}

/// An element of the response, as received. Coordinates keep the decimal text
/// of the response, so the record holds no machine floating point.
#[derive(Debug)]
pub struct Element {
    pub element_type: ElementKind,
    pub id: u64,
    pub lat: Option<String>,
    pub lon: Option<String>,
    pub timestamp: String,
    pub version: u32,
    pub changeset: Option<u64>,
    pub user: Option<String>,
    pub uid: Option<u64>,
    pub tags: Vec<(String, String)>,
}

/// A structurally valid response: version, generator, and the elements.
#[derive(Debug)]
pub struct OverpassResponse {
    pub elements: Vec<Element>,
}

/// The projection of an element that is persisted: `changeset` and `uid` are
/// dropped, everything else carries over.
#[derive(Debug)]
pub struct ProcessedElement {
    pub id: u64,
    pub lat: Option<String>,
    pub lon: Option<String>,
    pub timestamp: String,
    pub element_type: ElementKind,
    pub version: u32,
    pub user: Option<String>,
    pub tags: Vec<(String, String)>,
}

/// The snapshot envelope: a generation time, a record count, and the records
/// in response order.
#[derive(Debug)]
pub struct ProcessedOutput {
    pub timestamp: u64,
    pub count: usize,
    pub elements: Vec<ProcessedElement>,
}

impl ProcessedOutput {
    /// The envelope's invariant: the count is always the number of records.
    pub open spec fn wf(&self) -> bool {
        self.count == self.elements@.len()
    }
}

/// What `ProcessedElement::from` keeps of an element.
pub open spec fn project(e: Element) -> ProcessedElement {
    ProcessedElement {
        id: e.id,
        lat: e.lat,
        lon: e.lon,
        timestamp: e.timestamp,
        element_type: e.element_type,
        version: e.version,
        user: e.user,
        tags: e.tags,
    }
}

impl From<Element> for ProcessedElement {
    fn from(elem: Element) -> (r: ProcessedElement) {
        ProcessedElement {
            id: elem.id,
            lat: elem.lat,
            lon: elem.lon,
            timestamp: elem.timestamp,
            element_type: elem.element_type,
            version: elem.version,
            user: elem.user,
            tags: elem.tags,
        }
    }
}

impl vstd::std_specs::convert::FromSpecImpl<Element> for ProcessedElement {
    open spec fn obeys_from_spec() -> bool {
        true
    }

    open spec fn from_spec(v: Element) -> ProcessedElement {
        project(v)
    }
}

/// The kind a wire name stands for.
pub open spec fn kind_of_str(s: Seq<char>) -> Option<ElementKind> {
    if s == "node"@ {
        Some(ElementKind::Node)
    } else if s == "area"@ {
        Some(ElementKind::Area)
    } else if s == "relation"@ {
        Some(ElementKind::Relation)
    } else {
        None
    }
}

/// A required string field: present and a JSON string.
pub open spec fn req_string(fields: Seq<(String, JsonValue)>, key: Seq<char>) -> Option<String> {
    match obj_lookup(fields, key) {
        Some(JsonValue::Str(s)) => Some(s),
        _ => None,
    }
}

/// A required unsigned field: present, a JSON number written as plain digits,
/// and within range.
pub open spec fn req_u64(fields: Seq<(String, JsonValue)>, key: Seq<char>) -> Option<u64> {
    match obj_lookup(fields, key) {
        Some(JsonValue::Num(t)) => if is_digits(t@) && dec_val(t@) <= u64::MAX {
            Some(dec_val(t@) as u64)
        } else {
            None
        },
        _ => None,
    }
}

/// As `req_u64`, within `u32` range.
pub open spec fn req_u32(fields: Seq<(String, JsonValue)>, key: Seq<char>) -> Option<u32> {
    match obj_lookup(fields, key) {
        Some(JsonValue::Num(t)) => if is_digits(t@) && dec_val(t@) <= u32::MAX {
            Some(dec_val(t@) as u32)
        } else {
            None
        },
        _ => None,
    }
}

/// An optional number kept as text: absent or null is fine (inner `None`), a
/// number keeps its text, anything else is a shape error (outer `None`).
pub open spec fn opt_num_text(fields: Seq<(String, JsonValue)>, key: Seq<char>) -> Option<
    Option<String>,
> {
    match obj_lookup(fields, key) {
        None => Some(None),
        Some(JsonValue::Null) => Some(None),
        Some(JsonValue::Num(t)) => Some(Some(t)),
        Some(_) => None,
    }
}

/// An optional unsigned field, with the same tri-state reading.
pub open spec fn opt_u64(fields: Seq<(String, JsonValue)>, key: Seq<char>) -> Option<Option<u64>> {
    match obj_lookup(fields, key) {
        None => Some(None),
        Some(JsonValue::Null) => Some(None),
        Some(JsonValue::Num(t)) => if is_digits(t@) && dec_val(t@) <= u64::MAX {
            Some(Some(dec_val(t@) as u64))
        } else {
            None
        },
        Some(_) => None,
    }
}

/// An optional string field, with the same tri-state reading.
pub open spec fn opt_string(fields: Seq<(String, JsonValue)>, key: Seq<char>) -> Option<
    Option<String>,
> {
    match obj_lookup(fields, key) {
        None => Some(None),
        Some(JsonValue::Null) => Some(None),
        Some(JsonValue::Str(s)) => Some(Some(s)),
        Some(_) => None,
    }
}

/// The tag map of an element: an object whose values are all strings.
pub open spec fn tags_of(v: JsonValue) -> Option<Seq<(String, String)>> {
    match v {
        JsonValue::Obj(fs) => if forall|i: int| 0 <= i < fs@.len() ==> (#[trigger] fs@[i].1) is Str {
            Some(fs@.map_values(|f: (String, JsonValue)| (f.0, f.1->Str_0)))
        } else {
            None
        },
        _ => None,
    }
}

/// Whether a JSON value has the shape of a response element.
pub open spec fn elem_ok(j: JsonValue) -> bool {
    &&& j matches JsonValue::Obj(fs)
    &&& req_string(fs@, "type"@) matches Some(t) && kind_of_str(t@) is Some
    &&& req_u64(fs@, "id"@) is Some
    &&& opt_num_text(fs@, "lat"@) is Some
    &&& opt_num_text(fs@, "lon"@) is Some
    &&& req_string(fs@, "timestamp"@) is Some
    &&& req_u32(fs@, "version"@) is Some
    &&& opt_u64(fs@, "changeset"@) is Some
    &&& opt_string(fs@, "user"@) is Some
    &&& opt_u64(fs@, "uid"@) is Some
    &&& obj_lookup(fs@, "tags"@) matches Some(tv) && tags_of(tv) is Some
}

/// Whether `e` is exactly the element a JSON value encodes.
pub open spec fn describes_element(j: JsonValue, e: Element) -> bool {
    &&& elem_ok(j)
    &&& j matches JsonValue::Obj(fs)
    &&& e.element_type == kind_of_str(req_string(fs@, "type"@)->Some_0@)->Some_0
    &&& e.id == req_u64(fs@, "id"@)->Some_0
    &&& e.lat == opt_num_text(fs@, "lat"@)->Some_0
    &&& e.lon == opt_num_text(fs@, "lon"@)->Some_0
    &&& e.timestamp == req_string(fs@, "timestamp"@)->Some_0
    &&& e.version == req_u32(fs@, "version"@)->Some_0
    &&& e.changeset == opt_u64(fs@, "changeset"@)->Some_0
    &&& e.user == opt_string(fs@, "user"@)->Some_0
    &&& e.uid == opt_u64(fs@, "uid"@)->Some_0
    &&& e.tags@ == tags_of(obj_lookup(fs@, "tags"@)->Some_0)->Some_0
}

/// Whether a JSON document has the fixed top-level response shape.
pub open spec fn response_ok(j: JsonValue) -> bool {
    &&& j matches JsonValue::Obj(fs)
    &&& obj_lookup(fs@, "version"@) matches Some(v) && v is Num
    &&& obj_lookup(fs@, "generator"@) matches Some(g) && g is Str
    &&& obj_lookup(fs@, "elements"@) matches Some(es) && es is Arr && (forall|i: int|
        0 <= i < es->Arr_0@.len() ==> elem_ok(#[trigger] es->Arr_0@[i]))
}

/// Whether `elements` is exactly the element sequence a document encodes.
pub open spec fn describes_response(j: JsonValue, elements: Seq<Element>) -> bool {
    &&& response_ok(j)
    &&& j matches JsonValue::Obj(fs)
    &&& obj_lookup(fs@, "elements"@) matches Some(es) && elements.len() == es->Arr_0@.len() && (
    forall|i: int|
        0 <= i < elements.len() ==> describes_element(
            es->Arr_0@[i],
            #[trigger] elements[i],
        ))
}

/// Reads one element object.
fn extract_element(j: &JsonValue) -> (r: Option<Element>)
    ensures
        r is Some <==> elem_ok(*j),
        r matches Some(e) ==> describes_element(*j, e),
{
    let fields = match j {
        JsonValue::Obj(fs) => fs,
        _ => {
            return None;
        },
    };
    let element_type = match obj_get(fields, "type") {
        Some(JsonValue::Str(s)) => {
            if crate::text::str_eq(s.as_str(), "node") {
                ElementKind::Node
            } else if crate::text::str_eq(s.as_str(), "area") {
                ElementKind::Area
            } else if crate::text::str_eq(s.as_str(), "relation") {
                ElementKind::Relation
            } else {
                return None;
            }
        },
        _ => {
            return None;
        },
    };
    let id = match obj_get(fields, "id") {
        Some(JsonValue::Num(t)) => match crate::num::parse_u64(t.as_str()) {
            Some(v) => v,
            None => {
                return None;
            },
        },
        _ => {
            return None;
        },
    };
    let lat = match obj_get(fields, "lat") {
        None => None,
        Some(JsonValue::Null) => None,
        Some(JsonValue::Num(t)) => Some(t.clone()),
        Some(_) => {
            return None;
        },
    };
    let lon = match obj_get(fields, "lon") {
        None => None,
        Some(JsonValue::Null) => None,
        Some(JsonValue::Num(t)) => Some(t.clone()),
        Some(_) => {
            return None;
        },
    };
    let timestamp = match obj_get(fields, "timestamp") {
        Some(JsonValue::Str(s)) => s.clone(),
        _ => {
            return None;
        },
    };
    let version = match obj_get(fields, "version") {
        Some(JsonValue::Num(t)) => match crate::num::parse_u32(t.as_str()) {
            Some(v) => v,
            None => {
                return None;
            },
        },
        _ => {
            return None;
        },
    };
    let changeset = match obj_get(fields, "changeset") {
        None => None,
        Some(JsonValue::Null) => None,
        Some(JsonValue::Num(t)) => match crate::num::parse_u64(t.as_str()) {
            Some(v) => Some(v),
            None => {
                return None;
            },
        },
        Some(_) => {
            return None;
        },
    };
    let user = match obj_get(fields, "user") {
        None => None,
        Some(JsonValue::Null) => None,
        Some(JsonValue::Str(s)) => Some(s.clone()),
        Some(_) => {
            return None;
        },
    };
    let uid = match obj_get(fields, "uid") {
        None => None,
        Some(JsonValue::Null) => None,
        Some(JsonValue::Num(t)) => match crate::num::parse_u64(t.as_str()) {
            Some(v) => Some(v),
            None => {
                return None;
            },
        },
        Some(_) => {
            return None;
        },
    };
    let tags = match obj_get(fields, "tags") {
        Some(tv) => match extract_tags(tv) {
            Some(t) => t,
            None => {
                return None;
            },
        },
        None => {
            return None;
        },
    };
    Some(
        Element {
            element_type,
            id,
            lat,
            lon,
            timestamp,
            version,
            changeset,
            user,
            uid,
            tags,
        },
    )
}

/// Reads the tag object of an element.
#[verifier::loop_isolation(false)]
fn extract_tags(v: &JsonValue) -> (r: Option<Vec<(String, String)>>)
    ensures
        r is Some <==> tags_of(*v) is Some,
        r matches Some(t) ==> Some(t@) == tags_of(*v),
{
    let fs = match v {
        JsonValue::Obj(fs) => fs,
        _ => {
            return None;
        },
    };
    let n = fs.len();
    let mut out: Vec<(String, String)> = Vec::new();
    for i in 0..n
        invariant
            n == fs@.len(),
            out@.len() == i,
            forall|k: int| 0 <= k < i ==> (#[trigger] fs@[k].1) is Str,
            forall|k: int|
                0 <= k < i ==> #[trigger] out@[k] == (fs@[k].0, fs@[k].1->Str_0),
    {
        match &fs[i].1 {
            JsonValue::Str(s) => {
                out.push((fs[i].0.clone(), s.clone()));
            },
            _ => {
                proof {
                    assert((*v)->Obj_0 == *fs);
                    assert(!((fs@[i as int].1) is Str));
                    assert(tags_of(*v) is None);
                }
                return None;
            },
        }
    }
    proof {
        assert(out@ =~= fs@.map_values(|f: (String, JsonValue)| (f.0, f.1->Str_0)));
    }
    Some(out)
}

/// Reads the fixed top-level shape and every element of a parsed document.
#[verifier::loop_isolation(false)]
fn extract_response(j: &JsonValue) -> (r: Option<Vec<Element>>)
    ensures
        r is Some <==> response_ok(*j),
        r matches Some(es) ==> describes_response(*j, es@),
{
    let fields = match j {
        JsonValue::Obj(fs) => fs,
        _ => {
            return None;
        },
    };
    match obj_get(fields, "version") {
        Some(JsonValue::Num(_)) => {},
        _ => {
            return None;
        },
    }
    match obj_get(fields, "generator") {
        Some(JsonValue::Str(_)) => {},
        _ => {
            return None;
        },
    }
    let arr = match obj_get(fields, "elements") {
        Some(JsonValue::Arr(items)) => items,
        _ => {
            return None;
        },
    };
    let n = arr.len();
    let mut out: Vec<Element> = Vec::new();
    for i in 0..n
        invariant
            n == arr@.len(),
            out@.len() == i,
            forall|k: int| 0 <= k < i ==> elem_ok(#[trigger] arr@[k]),
            forall|k: int| 0 <= k < i ==> describes_element(arr@[k], #[trigger] out@[k]),
    {
        match extract_element(&arr[i]) {
            Some(e) => out.push(e),
            None => {
                proof {
                    let lookup = obj_lookup(fields@, "elements"@);
                    assert(lookup->Some_0->Arr_0@ == arr@);
                    assert(!elem_ok(lookup->Some_0->Arr_0@[i as int]));
                    assert(!response_ok(*j));
                }
                return None;
            },
        }
    }
    Some(out)
}

/// Parses response bytes into the typed representation: `Ok` exactly when the
/// bytes are well-formed JSON of the fixed response shape, and then the
/// elements are exactly those of the document, in order. A failure is always a
/// `Parse` error carrying a diagnostic.
pub fn parse_response(response_bytes: &[u8]) -> (r: Result<OverpassResponse, Error>)
    ensures
        r is Ok <==> (json_doc(response_bytes@) matches Some(j) && response_ok(j)),
        r matches Ok(resp) ==> describes_response(
            json_doc(response_bytes@)->Some_0,
            resp.elements@,
        ),
        r matches Err(e) ==> e is Parse,
{
    let doc = match crate::json::parse_json(response_bytes) {
        Ok(v) => v,
        Err(m) => {
            return Err(Error::Parse(m));
        },
    };
    match extract_response(&doc) {
        Some(elements) => Ok(OverpassResponse { elements }),
        None => Err(Error::Parse(String::from_str("unexpected response shape"))),
    }
}

/// The service's optional human-readable diagnostic: the top-level `remark`
/// string of the document, when the bytes parse and carry one.
pub open spec fn remark_of(doc: Option<JsonValue>) -> Option<String> {
    match doc {
        Some(JsonValue::Obj(fs)) => match obj_lookup(fs@, "remark"@) {
            Some(JsonValue::Str(s)) => Some(s),
            _ => None,
        },
        _ => None,
    }
}

/// Best-effort probe for the service's `remark` diagnostic in raw response
/// bytes; it never fails, it only comes back empty.
pub fn extract_remark(response_bytes: &[u8]) -> (r: Option<String>)
    ensures
        r == remark_of(json_doc(response_bytes@)),
{
    match crate::json::parse_json(response_bytes) {
        Ok(JsonValue::Obj(fields)) => match obj_get(&fields, "remark") {
            Some(JsonValue::Str(s)) => Some(s.clone()),
            _ => None,
        },
        _ => None,
    }
}

/// Relies on `std::time::SystemTime::now` and `duration_since(UNIX_EPOCH)`:
/// the seconds elapsed since the Unix epoch, or an error when the clock reads
/// earlier than the epoch. The result depends on the wall clock, so nothing is
/// promised of it.
#[verifier::external_body]
fn current_epoch_seconds() -> Result<u64, ()> {
    match std::time::SystemTime::now().duration_since(std::time::UNIX_EPOCH) {
        Ok(d) => Ok(d.as_secs()),
        Err(_) => Err(()),
    }
}

/// Turns validated elements into the snapshot envelope, dating it
/// `generated_at`. An empty input always fails with `EmptyDataset`; any other
/// input succeeds, with every element projected in order and the count equal
/// to the element count.
pub fn make_snapshot(elements: Vec<Element>, generated_at: u64) -> (r: Result<
    ProcessedOutput,
    Error,
>)
    ensures
        elements@.len() == 0 <==> (r matches Err(e) && e == Error::EmptyDataset),
        elements@.len() > 0 <==> r is Ok,
        r matches Ok(out) ==> {
            &&& out.wf()
            &&& out.timestamp == generated_at
            &&& out.count == elements@.len()
            &&& out.elements@ == elements@.map_values(|e: Element| project(e))
        },
{
    if elements.len() == 0 {
        return Err(Error::EmptyDataset);
    }
    let timestamp = generated_at;
    let count = elements.len();
    let ghost orig = elements@;
    let mut src = elements;
    let mut out: Vec<ProcessedElement> = Vec::new();
    while src.len() > 0
        invariant
            out@.len() + src@.len() == orig.len(),
            src@ == orig.skip(out@.len() as int),
            forall|k: int| 0 <= k < out@.len() ==> #[trigger] out@[k] == project(orig[k]),
        decreases src@.len(),
    {
        proof {
            assert(src@[0] == orig[out@.len() as int]);
        }
        let e = src.remove(0);
        out.push(ProcessedElement::from(e));
        proof {
            assert(src@ =~= orig.skip(out@.len() as int));
        }
    }
    proof {
        assert(out@ =~= orig.map_values(|e: Element| project(e)));
    }
    Ok(ProcessedOutput { timestamp, count, elements: out })
}

/// Turns validated elements into the snapshot envelope. An empty input always
/// fails with `EmptyDataset`; otherwise the generation time is read from the
/// clock once, after validation, and the envelope is built by `make_snapshot`
/// — a non-empty input fails only when the clock cannot be read.
pub fn process_elements(elements: Vec<Element>) -> (r: Result<ProcessedOutput, Error>)
    ensures
        elements@.len() == 0 <==> (r matches Err(e) && e == Error::EmptyDataset),
        r matches Ok(out) ==> {
            &&& out.wf()
            &&& out.count == elements@.len()
            &&& out.elements@ == elements@.map_values(|e: Element| project(e))
        },
        elements@.len() > 0 && r is Err ==> r->Err_0 == Error::Clock,
{
    if elements.len() == 0 {
        return Err(Error::EmptyDataset);
    }
    let generated_at = match current_epoch_seconds() {
        Ok(t) => t,
        Err(_) => {
            return Err(Error::Clock);
        },
    };
    make_snapshot(elements, generated_at)
}

/// The query text: one batch asking for every node, area and relation tagged
/// as a charging station, with full metadata and the given query timeout.
pub open spec fn spec_query(timeout_seconds: u32) -> Seq<char> {
    "\n        [out:json][timeout:"@ + dec_str(timeout_seconds as nat)
        + "];\n        (\n          node[amenity=charging_station];\n          area[amenity=charging_station];\n          relation[amenity=charging_station];\n        );\n        out meta qt;\n        "@
}

/// Builds the query for charging stations with the given query timeout.
pub fn build_query(timeout_seconds: u32) -> (q: String)
    ensures
        q@ == spec_query(timeout_seconds),
{
    let mut out: Vec<char> = Vec::new();
    crate::text::push_lit(&mut out, "\n        [out:json][timeout:");
    crate::num::push_dec(&mut out, timeout_seconds as u64);
    crate::text::push_lit(
        &mut out,
        "];\n        (\n          node[amenity=charging_station];\n          area[amenity=charging_station];\n          relation[amenity=charging_station];\n        );\n        out meta qt;\n        ",
    );
    proof {
        assert(out@ =~= spec_query(timeout_seconds));
    }
    crate::text::chars_to_string(&out)
}

} // verus!

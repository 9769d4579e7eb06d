//! The operations that services publish in their API descriptions (OpenAPI
//! documents): for each service, each operation id with its HTTP method, path
//! and request content type.

use vstd::prelude::*;
use crate::assoc::{assoc_map, find_last, lemma_assoc_map};
use crate::json::{find_member, has_member, json_get, json_members, opt_text, Json};
use crate::text::str_eq;

verus! {

/// One operation of an API description.
pub struct OperationInfo {
    /// The HTTP method, upper case.
    pub method: String,
    /// The path template, with `{name}` placeholders.
    pub path: String,
    /// The request body's content type, where the operation takes one of the two
    /// the collection knows.
    pub content_type: Option<String>,
}

impl View for OperationInfo {
    type V = (Seq<char>, Seq<char>, Option<Seq<char>>);

    open spec fn view(&self) -> Self::V {
        (self.method@, self.path@, opt_text(self.content_type))
    }
}

/// The upper-case name of an HTTP method that the collection takes from API
/// descriptions (`get`, `post`, `put`, `delete`, `patch`); `None` for any other key.
pub open spec fn http_method_upper(m: Seq<char>) -> Option<Seq<char>> {
    if m == "get"@ {
        Some("GET"@)
    } else if m == "post"@ {
        Some("POST"@)
    } else if m == "put"@ {
        Some("PUT"@)
    } else if m == "delete"@ {
        Some("DELETE"@)
    } else if m == "patch"@ {
        Some("PATCH"@)
    } else {
        None
    }
}

/// The request content type of an operation: JSON where `requestBody.content`
/// has a JSON entry, else form encoding where it has one, else none.
pub open spec fn body_content_type(details: Json) -> Option<Seq<char>> {
    match json_get(details, "requestBody"@) {
        Some(rb) => match json_get(rb, "content"@) {
            Some(c) => match json_members(c) {
                Some(ms) => if has_member(ms, "application/json"@) {
                    Some("application/json"@)
                } else if has_member(ms, "application/x-www-form-urlencoded"@) {
                    Some("application/x-www-form-urlencoded"@)
                } else {
                    None
                },
                None => None,
            },
            None => None,
        },
        None => None,
    }
}

/// The entry that the method `method` of `path` contributes: its operation id
/// and operation, where the method is one of the five and has a string
/// `operationId`.
pub open spec fn operation_entry(path: Seq<char>, method: Seq<char>, details: Json) -> Option<
    (Seq<char>, (Seq<char>, Seq<char>, Option<Seq<char>>)),
> {
    match http_method_upper(method) {
        Some(upper) => match json_get(details, "operationId"@) {
            Some(Json::Str(id)) => Some((id@, (upper, path, body_content_type(details)))),
            _ => None,
        },
        None => None,
    }
}

/// The entries of the methods of one path, in order.
pub open spec fn method_entries(path: Seq<char>, methods: Seq<(String, Json)>) -> Seq<
    (Seq<char>, (Seq<char>, Seq<char>, Option<Seq<char>>)),
>
    decreases methods.len(),
{
    if methods.len() == 0 {
        Seq::empty()
    } else {
        let prev = method_entries(path, methods.drop_last());
        match operation_entry(path, methods.last().0@, methods.last().1) {
            Some(e) => prev.push(e),
            None => prev,
        }
    }
}

/// The entries of each path whose value is an object, in order.
pub open spec fn path_entries(paths: Seq<(String, Json)>) -> Seq<
    (Seq<char>, (Seq<char>, Seq<char>, Option<Seq<char>>)),
>
    decreases paths.len(),
{
    if paths.len() == 0 {
        Seq::empty()
    } else {
        path_entries(paths.drop_last()) + match json_members(paths.last().1) {
            Some(ms) => method_entries(paths.last().0@, ms),
            None => Seq::empty(),
        }
    }
}

/// The operation entries of an API description: those of its `paths` object,
/// none where it has no such object.
pub open spec fn spec_operations(spec: Json) -> Seq<
    (Seq<char>, (Seq<char>, Seq<char>, Option<Seq<char>>)),
> {
    match json_get(spec, "paths"@) {
        Some(p) => match json_members(p) {
            Some(ps) => path_entries(ps),
            None => Seq::empty(),
        },
        None => Seq::empty(),
    }
}

/// Operation entries taken by their views.
pub open spec fn entries_view(v: Seq<(String, OperationInfo)>) -> Seq<
    (Seq<char>, (Seq<char>, Seq<char>, Option<Seq<char>>)),
> {
    v.map_values(|e: (String, OperationInfo)| (e.0@, e.1@))
}

/// For each service, its operations by id.
pub struct OperationMap {
    pub services: Vec<(String, Vec<(String, OperationInfo)>)>,
}

/// Each service with the map of its operations.
pub open spec fn services_view(v: Seq<(String, Vec<(String, OperationInfo)>)>) -> Seq<
    (Seq<char>, Map<Seq<char>, (Seq<char>, Seq<char>, Option<Seq<char>>)>),
> {
    v.map_values(
        |e: (String, Vec<(String, OperationInfo)>)| (e.0@, assoc_map(entries_view(e.1@))),
    )
}

impl View for OperationMap {
    type V = Map<Seq<char>, Map<Seq<char>, (Seq<char>, Seq<char>, Option<Seq<char>>)>>;

    open spec fn view(&self) -> Self::V {
        assoc_map(services_view(self.services@))
    }
}

/// Each named API description with the map of its operations.
pub open spec fn parsed_services(specs: Seq<(String, Json)>) -> Seq<
    (Seq<char>, Map<Seq<char>, (Seq<char>, Seq<char>, Option<Seq<char>>)>),
> {
    specs.map_values(|e: (String, Json)| (e.0@, assoc_map(spec_operations(e.1))))
}

fn method_upper(m: &str) -> (r: Option<String>)
    ensures
        opt_text(r) == http_method_upper(m@),
{
    if str_eq(m, "get") {
        Some(String::from_str("GET"))
    } else if str_eq(m, "post") {
        Some(String::from_str("POST"))
    } else if str_eq(m, "put") {
        Some(String::from_str("PUT"))
    } else if str_eq(m, "delete") {
        Some(String::from_str("DELETE"))
    } else if str_eq(m, "patch") {
        Some(String::from_str("PATCH"))
    } else {
        None
    }
}

/// The request content type of an operation's details.
pub fn request_content_type(details: &Json) -> (r: Option<String>)
    ensures
        opt_text(r) == body_content_type(*details),
{
    match details.get("requestBody") {
        Some(rb) => match rb.get("content") {
            Some(c) => match c.as_object() {
                Some(ms) => {
                    if find_member(ms, "application/json").is_some() {
                        Some(String::from_str("application/json"))
                    } else if find_member(ms, "application/x-www-form-urlencoded").is_some() {
                        Some(String::from_str("application/x-www-form-urlencoded"))
                    } else {
                        None
                    }
                },
                None => None,
            },
            None => None,
        },
        None => None,
    }
}

fn operation_of(path: &str, method: &str, details: &Json) -> (r: Option<(String, OperationInfo)>)
    ensures
        match r {
            Some(e) => operation_entry(path@, method@, *details) == Some((e.0@, e.1@)),
            None => operation_entry(path@, method@, *details) is None,
        },
{
    match method_upper(method) {
        Some(upper) => match details.get("operationId") {
            Some(v) => match v.as_str() {
                Some(id) => {
                    let info = OperationInfo {
                        method: upper,
                        path: String::from_str(path),
                        content_type: request_content_type(details),
                    };
                    Some((String::from_str(id), info))
                },
                None => None,
            },
            None => None,
        },
        None => None,
    }
}

fn push_method_entries(
    out: &mut Vec<(String, OperationInfo)>,
    path: &str,
    methods: &Vec<(String, Json)>,
)
    ensures
        entries_view(final(out)@) == entries_view(old(out)@) + method_entries(path@, methods@),
{
    let mut j: usize = 0;
    while j < methods.len()
        invariant
            j <= methods@.len(),
            entries_view(out@) == entries_view(old(out)@) + method_entries(
                path@,
                methods@.take(j as int),
            ),
        decreases methods@.len() - j,
    {
        let ghost before = entries_view(out@);
        proof {
            assert(methods@.take(j + 1).drop_last() =~= methods@.take(j as int));
        }
        match operation_of(path, methods[j].0.as_str(), &methods[j].1) {
            Some(e) => {
                out.push(e);
                assert(entries_view(out@) =~= before.push((e.0@, e.1@)));
            },
            None => {
                assert(entries_view(out@) =~= before);
            },
        }
        j = j + 1;
    }
    assert(methods@.take(j as int) =~= methods@);
}

/// The operation entries of an API description, in document order.
pub fn operations_of(spec: &Json) -> (ops: Vec<(String, OperationInfo)>)
    ensures
        entries_view(ops@) == spec_operations(*spec),
{
    let mut ops: Vec<(String, OperationInfo)> = Vec::new();
    match spec.get("paths") {
        Some(p) => match p.as_object() {
            Some(paths) => {
                let mut i: usize = 0;
                while i < paths.len()
                    invariant
                        i <= paths@.len(),
                        json_members(*p) == Some(paths@),
                        entries_view(ops@) == path_entries(paths@.take(i as int)),
                    decreases paths@.len() - i,
                {
                    proof {
                        assert(paths@.take(i + 1).drop_last() =~= paths@.take(i as int));
                    }
                    let ghost before = entries_view(ops@);
                    match paths[i].1.as_object() {
                        Some(methods) => {
                            push_method_entries(&mut ops, paths[i].0.as_str(), methods);
                        },
                        None => {
                            assert(entries_view(ops@) =~= before + Seq::empty());
                        },
                    }
                    i = i + 1;
                }
                assert(paths@.take(i as int) =~= paths@);
            },
            None => {
                assert(entries_view(ops@) =~= Seq::empty());
            },
        },
        None => {
            assert(entries_view(ops@) =~= Seq::empty());
        },
    }
    ops
}

/// For each named API description, its operations by id; a later description of
/// the same name replaces an earlier one.
pub fn parse_specs(specs: &Vec<(String, Json)>) -> (m: OperationMap)
    ensures
        m@ == assoc_map(parsed_services(specs@)),
        m.services@.len() == specs@.len(),
        forall|i: int|
            0 <= i < specs@.len() ==> (#[trigger] m.services@[i]).0@ == specs@[i].0@ && entries_view(
                m.services@[i].1@,
            ) == spec_operations(specs@[i].1),
{
    let mut services: Vec<(String, Vec<(String, OperationInfo)>)> = Vec::new();
    let mut i: usize = 0;
    while i < specs.len()
        invariant
            i <= specs@.len(),
            services@.len() == i,
            services_view(services@) == parsed_services(specs@.take(i as int)),
            forall|k: int|
                0 <= k < i ==> (#[trigger] services@[k]).0@ == specs@[k].0@ && entries_view(
                    services@[k].1@,
                ) == spec_operations(specs@[k].1),
        decreases specs@.len() - i,
    {
        let ops = operations_of(&specs[i].1);
        let name = specs[i].0.clone();
        let ghost entry = (name@, assoc_map(entries_view(ops@)));
        assert(entry == parsed_services(specs@.take(i + 1))[i as int]);
        let ghost before = services_view(services@);
        assert(parsed_services(specs@.take(i + 1)) =~= parsed_services(specs@.take(i as int)).push(entry));
        services.push((name, ops));
        assert(services_view(services@) =~= before.push(entry));
        assert(services_view(services@) =~= parsed_services(specs@.take(i + 1)));
        i = i + 1;
    }
    assert(specs@.take(i as int) =~= specs@);
    OperationMap { services }
}

impl OperationMap {
    /// The operation `op_id` of the service `service` (`HashMap::get` twice).
    pub fn get_operation(&self, service: &str, op_id: &str) -> (r: Option<&OperationInfo>)
        ensures
            match r {
                Some(o) => self@.contains_key(service@) && self@[service@].contains_key(op_id@)
                    && self@[service@][op_id@] == o@,
                None => !(self@.contains_key(service@) && self@[service@].contains_key(op_id@)),
            },
    {
        let ghost sv = services_view(self.services@);
        proof {
            lemma_assoc_map(sv, service@);
        }
        match find_last(&self.services, service) {
            Some(i) => {
                let ops = &self.services[i].1;
                let ghost ev = entries_view(ops@);
                proof {
                    assert(sv[i as int].0 == service@);
                    assert forall|j: int| i < j < sv.len() implies #[trigger] sv[j].0 != service@ by {
                        assert(self.services@[j].0@ != service@);
                    }
                    assert(self@[service@] == sv[i as int].1);
                    lemma_assoc_map(ev, op_id@);
                }
                match find_last(ops, op_id) {
                    Some(k) => {
                        proof {
                            assert(ev[k as int].0 == op_id@);
                            assert forall|j: int| k < j < ev.len() implies #[trigger] ev[j].0 != op_id@ by {
                                assert(ops@[j].0@ != op_id@);
                            }
                            assert(assoc_map(ev)[op_id@] == ev[k as int].1);
                        }
                        Some(&ops[k].1)
                    },
                    None => {
                        proof {
                            assert forall|j: int| 0 <= j < ev.len() implies #[trigger] ev[j].0 != op_id@ by {
                                assert(ops@[j].0@ != op_id@);
                            }
                        }
                        None
                    },
                }
            },
            None => {
                proof {
                    assert forall|j: int| 0 <= j < sv.len() implies #[trigger] sv[j].0 != service@ by {
                        assert(self.services@[j].0@ != service@);
                    }
                }
                None
            },
        }
    }
}

} // verus!

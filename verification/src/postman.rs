//! Generation of API-collection test scripts: for each request, the script
//! lines that check the response status and save response fields into
//! collection variables.

use vstd::prelude::*;
use crate::errors::concat_str;
use crate::scopes::concat_str3;
use crate::text::{decimal, u64_to_string};
use crate::textops::texts;
use crate::json::Json;

verus! {


/// Appends one line.
pub fn push_line(lines: &mut Vec<String>, line: String)
    ensures
        texts(final(lines)@) == texts(old(lines)@).push(line@),
{
    lines.push(line);
    assert(texts(lines@) =~= texts(old(lines)@).push(line@));
}

/// A saved field named `f?` is optional: the variable is set only when the
/// response has the field. Gives the field name and whether it is optional.
pub open spec fn optional_field(f: Seq<char>) -> (Seq<char>, bool) {
    if f.len() > 0 && f.last() == '?' {
        (f.drop_last(), true)
    } else {
        (f, false)
    }
}

/// Splits a trailing `?` (optional field marker) off a saved field name.
pub fn parse_optional_field(field: &str) -> (r: (String, bool))
    ensures
        r.0@ == optional_field(field@).0,
        r.1 == optional_field(field@).1,
{
    let n = field.unicode_len();
    if n > 0 && field.get_char(n - 1) == '?' {
        (String::from_str(field.substring_char(0, n - 1)), true)
    } else {
        (String::from_str(field), false)
    }
}

/// `a + b + c + d + e` as a new string.
pub fn concat5(a: &str, b: &str, c: &str, d: &str, e: &str) -> (s: String)
    ensures
        s@ == a@ + b@ + c@ + d@ + e@,
{
    let mut s = String::from_str(a);
    s.append(b);
    s.append(c);
    s.append(d);
    s.append(e);
    s
}

/// `a + b + c + d` as a new string.
pub fn concat4(a: &str, b: &str, c: &str, d: &str) -> (s: String)
    ensures
        s@ == a@ + b@ + c@ + d@,
{
    let mut s = String::from_str(a);
    s.append(b);
    s.append(c);
    s.append(d);
    s
}

/// The script lines that save one response field into a collection variable.
pub open spec fn save_entry_lines(var_name: Seq<char>, field_raw: Seq<char>, indent: Seq<char>) -> Seq<
    Seq<char>,
> {
    let (field, optional) = optional_field(field_raw);
    let set_line = "pm.collectionVariables.set('"@ + var_name + "', json."@ + field + ");"@;
    if optional {
        seq![
            indent + "if (json."@ + field + ") {"@,
            indent + "    "@ + set_line,
            indent + "}"@,
        ]
    } else {
        seq![indent + set_line]
    }
}

/// The script lines that save each `(variable, field)` pair, in order.
pub open spec fn save_lines(save: Seq<(String, String)>, indent: Seq<char>) -> Seq<Seq<char>>
    decreases save.len(),
{
    if save.len() == 0 {
        Seq::empty()
    } else {
        save_lines(save.drop_last(), indent) + save_entry_lines(
            save.last().0@,
            save.last().1@,
            indent,
        )
    }
}

/// Appends the lines that save each `(variable, field)` pair of `save`, each line
/// starting with `indent`.
pub fn append_save_lines(lines: &mut Vec<String>, save: &Vec<(String, String)>, indent: &str)
    ensures
        texts(final(lines)@) == texts(old(lines)@) + save_lines(save@, indent@),
{
    let mut i: usize = 0;
    while i < save.len()
        invariant
            i <= save@.len(),
            texts(lines@) == texts(old(lines)@) + save_lines(save@.take(i as int), indent@),
        decreases save@.len() - i,
    {
        let var_name = save[i].0.as_str();
        let (field, optional) = parse_optional_field(save[i].1.as_str());
        let ghost before = texts(lines@);
        let set_line = concat5("pm.collectionVariables.set('", var_name, "', json.", field.as_str(), ");");
        if optional {
            lines.push(concat4(indent, "if (json.", field.as_str(), ") {"));
            lines.push(concat_str3(indent, "    ", set_line.as_str()));
            lines.push(concat_str(indent, "}"));
            proof {
                assert(texts(lines@) =~= before + save_entry_lines(
                    save@[i as int].0@,
                    save@[i as int].1@,
                    indent@,
                ));
            }
        } else {
            lines.push(concat_str(indent, set_line.as_str()));
            proof {
                assert(texts(lines@) =~= before + save_entry_lines(
                    save@[i as int].0@,
                    save@[i as int].1@,
                    indent@,
                ));
            }
        }
        proof {
            assert(save@.take(i + 1).drop_last() =~= save@.take(i as int));
            assert(save@.take(i + 1).last() == save@[i as int]);
        }
        i = i + 1;
    }
    proof {
        assert(save@.take(i as int) =~= save@);
    }
}


/// Authentication a request or folder uses: its type and bearer token.
#[derive(Debug, Clone)]
pub struct AuthConfig {
    pub auth_type: String,
    pub token: String,
}

/// A request of the collection overlay: either an operation of a service's API
/// description, or a custom request; with optional body, authentication,
/// pre-request script, response fields to save and expected statuses.
pub struct RequestConfig {
    pub name: String,
    pub operation: Option<String>,
    pub service: Option<String>,
    pub url_base: Option<String>,
    pub path_params: Option<Vec<(String, String)>>,
    pub query_override: Option<Vec<(String, String)>>,
    pub custom: Option<bool>,
    pub method: Option<String>,
    pub url: Option<String>,
    pub content_type: Option<String>,
    pub body: Option<BodyConfig>,
    pub auth: Option<AuthConfig>,
    pub prerequest: Option<String>,
    pub save: Option<Vec<(String, String)>>,
    pub expect_status: Option<u16>,
    pub accept_status: Option<Vec<u16>>,
}

/// A request body of the overlay: its JSON text, pretty-printed, and, when it is
/// a JSON object, its members in order, each as its key, its value and the value's
/// compact JSON text.
pub struct BodyConfig {
    pub pretty: String,
    pub members: Option<Vec<(String, Json, String)>>,
}

/// A folder of the overlay: its requests, with an optional description and
/// authentication.
pub struct FolderConfig {
    pub name: String,
    pub description: Option<String>,
    pub auth: Option<AuthConfig>,
    pub requests: Vec<RequestConfig>,
}

/// The name and description of the collection.
pub struct OverlayInfo {
    pub name: String,
    pub description: String,
}

/// The overlay that describes the collection: its information, the services
/// with the address of each one's API description, the collection variables,
/// named pre-request scripts and the folders.
pub struct Overlay {
    pub info: OverlayInfo,
    pub services: Vec<(String, String)>,
    pub variables: Vec<(String, String)>,
    pub scripts: Vec<(String, Vec<String>)>,
    pub folders: Vec<FolderConfig>,
}

/// The lines checking each further accepted status, in order.
pub open spec fn other_status_lines(name: Seq<char>, statuses: Seq<u16>) -> Seq<Seq<char>>
    decreases statuses.len(),
{
    if statuses.len() == 0 {
        Seq::empty()
    } else {
        let st = decimal(statuses.last() as nat);
        other_status_lines(name, statuses.drop_last()) + seq![
            "} else if (pm.response.code === "@ + st + ") {"@,
            "    pm.test('"@ + name + " - already exists (OK)', function () {"@,
            "        pm.response.to.have.status("@ + st + ");"@,
            "    });"@,
        ]
    }
}

/// The test script of a request. With accepted statuses: a branch per status,
/// the first one saving the fields; else with fields to save: one test of the
/// expected status (200 by default) that saves them; else with an expected
/// status: one test of it; else nothing.
pub open spec fn test_script_lines(
    name: Seq<char>,
    accept: Option<Seq<u16>>,
    save: Option<Seq<(String, String)>>,
    expect: Option<u16>,
) -> Seq<Seq<char>> {
    match accept {
        Some(a) => {
            let primary = decimal(a[0] as nat);
            seq!["if (pm.response.code === "@ + primary + ") {"@] + (match save {
                Some(sv) => seq!["    var json = pm.response.json();"@] + save_lines(sv, "    "@),
                None => Seq::empty(),
            }) + seq![
                "    pm.test('"@ + name + " - success', function () {"@,
                "        pm.response.to.have.status("@ + primary + ");"@,
                "    });"@,
            ] + other_status_lines(name, a.skip(1)) + seq!["}"@]
        },
        None => match save {
            Some(sv) => {
                let st = decimal(
                    (match expect {
                        Some(e) => e,
                        None => 200u16,
                    }) as nat,
                );
                seq![
                    "pm.test('"@ + name + " - success', function () {"@,
                    "    pm.response.to.have.status("@ + st + ");"@,
                    "    var json = pm.response.json();"@,
                ] + save_lines(sv, "    "@) + seq!["});"@]
            },
            None => match expect {
                Some(e) => seq![
                    "pm.test('"@ + name + "', function () {"@,
                    "    pm.response.to.have.status("@ + decimal(e as nat) + ");"@,
                    "});"@,
                ],
                None => Seq::empty(),
            },
        },
    }
}

/// The contents of an optional vector.
pub open spec fn opt_vec_view<T>(o: Option<Vec<T>>) -> Option<Seq<T>> {
    match o {
        Some(v) => Some(v@),
        None => None,
    }
}

/// The test script lines of a request.
pub fn build_test_script(rc: &RequestConfig) -> (lines: Vec<String>)
    requires
        rc.accept_status matches Some(a) ==> a@.len() > 0,
    ensures
        texts(lines@) == test_script_lines(
            rc.name@,
            opt_vec_view(rc.accept_status),
            opt_vec_view(rc.save),
            rc.expect_status,
        ),
{
    let mut lines: Vec<String> = Vec::new();
    let name = rc.name.as_str();
    let ghost spec_lines = test_script_lines(
        rc.name@,
        opt_vec_view(rc.accept_status),
        opt_vec_view(rc.save),
        rc.expect_status,
    );
    match &rc.accept_status {
        Some(accept) => {
            let primary = u64_to_string(accept[0] as u64);
            push_line(&mut lines, concat_str3("if (pm.response.code === ", primary.as_str(), ") {"));
            match &rc.save {
                Some(save) => {
                    push_line(&mut lines, String::from_str("    var json = pm.response.json();"));
                    append_save_lines(&mut lines, save, "    ");
                },
                None => {},
            }
            push_line(&mut lines, concat_str3("    pm.test('", name, " - success', function () {"));
            push_line(&mut lines, concat_str3("        pm.response.to.have.status(", primary.as_str(), ");"));
            push_line(&mut lines, String::from_str("    });"));
            let ghost head = texts(lines@);
            let mut i: usize = 1;
            assert(accept@.skip(1).take(0) =~= Seq::<u16>::empty());
            while i < accept.len()
                invariant
                    1 <= i <= accept@.len(),
                    texts(lines@) == head + other_status_lines(rc.name@, accept@.skip(1).take(i - 1)),
                    name@ == rc.name@,
                decreases accept@.len() - i,
            {
                let st = u64_to_string(accept[i] as u64);
                let ghost before = texts(lines@);
                push_line(&mut lines, concat_str3("} else if (pm.response.code === ", st.as_str(), ") {"));
                push_line(&mut lines, concat_str3("    pm.test('", name, " - already exists (OK)', function () {"));
                push_line(&mut lines, concat_str3("        pm.response.to.have.status(", st.as_str(), ");"));
                push_line(&mut lines, String::from_str("    });"));
                proof {
                    let pre = accept@.skip(1).take(i as int);
                    assert(pre.drop_last() =~= accept@.skip(1).take(i - 1));
                    assert(pre.last() == accept@[i as int]);
                    assert(texts(lines@) =~= head + other_status_lines(rc.name@, pre));
                }
                i = i + 1;
            }
            push_line(&mut lines, String::from_str("}"));
            proof {
                assert(accept@.skip(1).take(i - 1) =~= accept@.skip(1));
                assert(texts(lines@) =~= spec_lines);
            }
        },
        None => {
            match &rc.save {
                Some(save) => {
                    let status: u16 = match rc.expect_status {
                        Some(e) => e,
                        None => 200,
                    };
                    let st = u64_to_string(status as u64);
                    push_line(&mut lines, concat_str3("pm.test('", name, " - success', function () {"));
                    push_line(&mut lines, concat_str3("    pm.response.to.have.status(", st.as_str(), ");"));
                    push_line(&mut lines, String::from_str("    var json = pm.response.json();"));
                    append_save_lines(&mut lines, save, "    ");
                    push_line(&mut lines, String::from_str("});"));
                    proof {
                        assert(texts(lines@) =~= spec_lines);
                    }
                },
                None => {
                    match rc.expect_status {
                        Some(e) => {
                            let st = u64_to_string(e as u64);
                            push_line(&mut lines, concat_str3("pm.test('", name, "', function () {"));
                            push_line(&mut lines, concat_str3("    pm.response.to.have.status(", st.as_str(), ");"));
                            push_line(&mut lines, String::from_str("});"));
                            proof {
                                assert(texts(lines@) =~= spec_lines);
                            }
                        },
                        None => {
                            proof {
                                assert(texts(lines@) =~= spec_lines);
                            }
                        },
                    }
                },
            }
        },
    }
    lines
}

} // verus!

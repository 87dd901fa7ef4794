//! How one Kotlin `http_rest` method builds its request from the operation's message: the path
//! with each placeholder percent-encoded, the query a bodyless method sends, the headers bound to
//! its arguments, the body, and the parts of a multipart body.
use super::wire::{kotlin_escape, kotlin_escaped, kotlin_wire_text, present_kotlin_wire_text, present_wire_text, wire_text};
use crate::features::kotlin::{kotlin_property_name, kotlin_typename, kt_type, tuples_of, KotlinNames, TupleWrappers, Tuples};
use crate::features::service_schema::kotlin_ws_client::{binding_params_text, message_kotlin_typename, message_type_text};
use crate::field_type::{contains_name, named_in, FieldDef};
use crate::rename_rule::camel_case;
use crate::service_def::{
    carries_body, find_input, input_named, method_name, path_template, placeholder_names, BodyKind, HeaderBinding, HttpShape, InputField,
    OperationDef, OperationInputs, PathSegment,
};
use crate::text::{join, join_all, views};
use vstd::prelude::*;

verus! {

/// Appends `prop: Type` for each of `bindings` to `params`.
fn push_binding_params(
    params: &mut Vec<String>,
    bindings: &Vec<HeaderBinding>,
    names: &KotlinNames,
    tuples: &mut TupleWrappers,
)
    ensures
        ({
            let (bound, after) = binding_params_text(bindings@, *names, tuples_of(*old(tuples)));
            views(final(params)@) == views(old(params)@) + bound && tuples_of(*final(tuples)) == after
        }),
{
    let ghost start = tuples_of(*tuples);
    let ghost head = views(params@);
    let mut i: usize = 0;
    assert(head + Seq::<Seq<char>>::empty() =~= head);
    while i < bindings.len()
        invariant
            0 <= i <= bindings.len(),
            ({
                let (bound, after) = binding_params_text(bindings@.take(i as int), *names, start);
                views(params@) == head + bound && tuples_of(*tuples) == after
            }),
        decreases bindings.len() - i,
    {
        assert(bindings@.take(i + 1).drop_last() =~= bindings@.take(i as int));
        let binding = &bindings[i];
        let ty = kotlin_typename(&binding.ty, names, tuples);
        let mut param = kotlin_property_name(binding.parameter.as_str());
        param.append(": ");
        param.append(ty.as_str());
        let ghost before = views(params@);
        params.push(param);
        proof {
            let (bound, _) = binding_params_text(bindings@.take(i as int), *names, start);
            assert(views(params@) =~= before.push(param@));
            assert(head + bound.push(param@) =~= (head + bound).push(param@));
        }
        i += 1;
    }
    assert(bindings@.take(bindings.len() as int) =~= bindings@);
}

/// `req` typed as the message, then one parameter per `header_in` binding and one per `part`
/// binding, joined by `, `.
pub open spec fn method_params_text(operation: OperationDef, names: KotlinNames, st: Tuples) -> (Seq<char>, Tuples) {
    let (message, s1) = message_type_text(operation, names, st);
    let (headers, s2) = binding_params_text(operation.http.header_in@, names, s1);
    let (parts, s3) = binding_params_text(operation.http.multipart_parts@, names, s2);
    (join(seq!["req: "@ + message] + headers + parts, ", "@), s3)
}

pub fn method_params(operation: &OperationDef, names: &KotlinNames, tuples: &mut TupleWrappers) -> (text: String)
    ensures
        (text@, tuples_of(*final(tuples))) == method_params_text(*operation, *names, tuples_of(*old(tuples))),
{
    let message = message_kotlin_typename(operation, names, tuples);
    let mut first = String::from_str("req: ");
    first.append(message.as_str());
    let mut params: Vec<String> = Vec::new();
    params.push(first);
    assert(views(params@) =~= seq!["req: "@ + message@]);
    push_binding_params(&mut params, &operation.http.header_in, names, tuples);
    push_binding_params(&mut params, &operation.http.multipart_parts, names, tuples);
    join_all(&params, ", ")
}

/// The line of documentation a method carries: the operation and the route it calls.
pub open spec fn method_doc_text(operation: OperationDef) -> Seq<char> {
    "  /// Calls `"@ + operation.wire_name@ + "` over `"@ + method_name(operation.http.method) + " "@
        + path_template(operation.http.path@) + "`."@
}

pub fn method_doc(operation: &OperationDef) -> (text: String)
    ensures
        text@ == method_doc_text(*operation),
{
    let mut text = String::from_str("  /// Calls `");
    text.append(operation.wire_name.as_str());
    text.append("` over `");
    text.append(operation.http.method.name());
    text.append(" ");
    text.append(operation.http.path_template().as_str());
    text.append("`.");
    text
}

/// The text one path placeholder reads off `req`: the field the placeholder names, or the whole
/// message where the message is itself one wire scalar bound by the path's only placeholder.
pub open spec fn placeholder_value_text(
    operation: OperationDef,
    placeholder: Seq<char>,
    names: KotlinNames,
    st: Tuples,
) -> (Seq<char>, Tuples) {
    let prop = camel_case(placeholder);
    let plain = "\"${req."@ + prop + "}\""@;
    match operation.inputs {
        OperationInputs::Empty => (plain, st),
        OperationInputs::Generated(fields) => match input_named(fields@, placeholder) {
            Some(field) => wire_text(field.ty, field.ty.array_depth as nat, "req."@ + prop, false, names, st),
            None => (plain, st),
        },
        OperationInputs::Named(declared) => if placeholder_names(operation.http.path@).len() == 1
            && operation.scalar_message {
            wire_text(declared, declared.array_depth as nat, "req"@, true, names, st)
        } else {
            (plain, st)
        },
    }
}

fn placeholder_value(operation: &OperationDef, placeholder: &str, names: &KotlinNames, tuples: &mut TupleWrappers) -> (text: String)
    ensures
        (text@, tuples_of(*final(tuples))) == placeholder_value_text(
            *operation,
            placeholder@,
            *names,
            tuples_of(*old(tuples)),
        ),
{
    let prop = kotlin_property_name(placeholder);
    let mut plain = String::from_str("\"${req.");
    plain.append(prop.as_str());
    plain.append("}\"");
    match &operation.inputs {
        OperationInputs::Empty => plain,
        OperationInputs::Generated(fields) => match find_input(fields, placeholder) {
            Some(field) => {
                let mut expr = String::from_str("req.");
                expr.append(prop.as_str());
                kotlin_wire_text(&field.ty, field.ty.array_depth, expr.as_str(), false, names, tuples)
            },
            None => plain,
        },
        OperationInputs::Named(declared) => if operation.http.placeholder_names().len() == 1
            && operation.scalar_message {
            kotlin_wire_text(declared, declared.array_depth, "req", true, names, tuples)
        } else {
            plain
        },
    }
}

/// One line per path segment: a literal appended as written, a placeholder's value appended
/// percent-encoded.
pub open spec fn path_lines_text(
    operation: OperationDef,
    segments: Seq<PathSegment>,
    fn_prefix: Seq<char>,
    names: KotlinNames,
    st: Tuples,
) -> (Seq<char>, Tuples)
    decreases segments.len(),
{
    if segments.len() == 0 {
        (Seq::empty(), st)
    } else {
        let (before, s1) = path_lines_text(operation, segments.drop_last(), fn_prefix, names, st);
        match segments.last() {
            PathSegment::Literal(text) => (before + "    path += \""@ + kotlin_escaped(text@) + "\"\n"@, s1),
            PathSegment::Placeholder(name) => {
                let (value, s2) = placeholder_value_text(operation, name@, names, s1);
                (before + "    path += "@ + fn_prefix + "HttpPercentEncode("@ + value + ")\n"@, s2)
            },
        }
    }
}

pub open spec fn path_build_text(operation: OperationDef, fn_prefix: Seq<char>, names: KotlinNames, st: Tuples) -> (
    Seq<char>,
    Tuples,
) {
    let (lines, s1) = path_lines_text(operation, operation.http.path@, fn_prefix, names, st);
    ("    var path = \"\"\n"@ + lines, s1)
}

pub fn path_build_stmt(operation: &OperationDef, fn_prefix: &str, names: &KotlinNames, tuples: &mut TupleWrappers) -> (text: String)
    ensures
        (text@, tuples_of(*final(tuples))) == path_build_text(
            *operation,
            fn_prefix@,
            *names,
            tuples_of(*old(tuples)),
        ),
{
    let ghost start = tuples_of(*tuples);
    let segments = &operation.http.path;
    let mut lines = String::new();
    let mut i: usize = 0;
    while i < segments.len()
        invariant
            0 <= i <= segments.len(),
            segments == &operation.http.path,
            (lines@, tuples_of(*tuples)) == path_lines_text(
                *operation,
                segments@.take(i as int),
                fn_prefix@,
                *names,
                start,
            ),
        decreases segments.len() - i,
    {
        assert(segments@.take(i + 1).drop_last() =~= segments@.take(i as int));
        match &segments[i] {
            PathSegment::Literal(text) => {
                lines.append("    path += \"");
                lines.append(kotlin_escape(text.as_str()).as_str());
                lines.append("\"\n");
            },
            PathSegment::Placeholder(name) => {
                let value = placeholder_value(operation, name.as_str(), names, tuples);
                lines.append("    path += ");
                lines.append(fn_prefix);
                lines.append("HttpPercentEncode(");
                lines.append(value.as_str());
                lines.append(")\n");
            },
        }
        i += 1;
    }
    assert(segments@.take(segments.len() as int) =~= segments@);
    let mut text = String::from_str("    var path = \"\"\n");
    text.append(lines.as_str());
    text
}

/// One query entry per field no placeholder binds, written where the field holds a value; how
/// many such fields there are.
pub open spec fn query_pushes_text(
    fields: Seq<InputField>,
    placeholders: Seq<Seq<char>>,
    fn_prefix: Seq<char>,
    names: KotlinNames,
    st: Tuples,
) -> (Seq<char>, nat, Tuples)
    decreases fields.len(),
{
    if fields.len() == 0 {
        (Seq::empty(), 0, st)
    } else {
        let (before, count, s1) = query_pushes_text(fields.drop_last(), placeholders, fn_prefix, names, st);
        let field = fields.last();
        if placeholders.contains(field.ident@) {
            (before, count, s1)
        } else {
            let (rendered, s2) = present_wire_text(field.ty, field.ty.array_depth as nat, "value"@, true, names, s1);
            (
                before + "    req."@ + camel_case(field.ident@) + "?.let { value ->\n      queryParts.add(\""@
                    + field.wire_key@ + "=\" + "@ + fn_prefix + "HttpPercentEncode("@ + rendered + "))\n    }\n"@,
                count + 1,
                s2,
            )
        }
    }
}

/// The query a bodyless method sends: one entry per argument no placeholder binds; nothing for a
/// method carrying a body, or a message that is empty or declared by the author.
pub open spec fn query_build_text(operation: OperationDef, fn_prefix: Seq<char>, names: KotlinNames, st: Tuples) -> (
    Seq<char>,
    Tuples,
) {
    let none = "    val query = \"\"\n"@;
    if carries_body(operation.http.method) {
        (none, st)
    } else {
        match operation.inputs {
            OperationInputs::Generated(fields) => {
                let (pushes, count, s1) = query_pushes_text(
                    fields@,
                    placeholder_names(operation.http.path@),
                    fn_prefix,
                    names,
                    st,
                );
                if count == 0 {
                    (none, s1)
                } else {
                    (
                        "    val queryParts = mutableListOf<String>()\n"@ + pushes
                            + "    val query = queryParts.joinToString(\"&\")\n"@,
                        s1,
                    )
                }
            },
            _ => (none, st),
        }
    }
}

pub fn query_build_stmt(operation: &OperationDef, fn_prefix: &str, names: &KotlinNames, tuples: &mut TupleWrappers) -> (text: String)
    ensures
        (text@, tuples_of(*final(tuples))) == query_build_text(
            *operation,
            fn_prefix@,
            *names,
            tuples_of(*old(tuples)),
        ),
{
    if operation.http.method.carries_a_body() {
        return String::from_str("    val query = \"\"\n");
    }
    let fields = match &operation.inputs {
        OperationInputs::Generated(fields) => fields,
        _ => {
            return String::from_str("    val query = \"\"\n");
        },
    };
    let placeholders = operation.http.placeholder_names();
    let ghost start = tuples_of(*tuples);
    let mut pushes = String::new();
    let mut count: usize = 0;
    let mut i: usize = 0;
    while i < fields.len()
        invariant
            0 <= i <= fields.len(),
            count <= i,
            ({
                let (text, n, after) = query_pushes_text(
                    fields@.take(i as int),
                    views(placeholders@),
                    fn_prefix@,
                    *names,
                    start,
                );
                pushes@ == text && count == n && tuples_of(*tuples) == after
            }),
        decreases fields.len() - i,
    {
        assert(fields@.take(i + 1).drop_last() =~= fields@.take(i as int));
        let field = &fields[i];
        if !contains_name(&placeholders, field.ident.as_str()) {
            let rendered = present_kotlin_wire_text_of(&field.ty, "value", names, tuples);
            pushes.append("    req.");
            pushes.append(kotlin_property_name(field.ident.as_str()).as_str());
            pushes.append("?.let { value ->\n      queryParts.add(\"");
            pushes.append(field.wire_key.as_str());
            pushes.append("=\" + ");
            pushes.append(fn_prefix);
            pushes.append("HttpPercentEncode(");
            pushes.append(rendered.as_str());
            pushes.append("))\n    }\n");
            count += 1;
        }
        i += 1;
    }
    assert(fields@.take(fields.len() as int) =~= fields@);
    if count == 0 {
        return String::from_str("    val query = \"\"\n");
    }
    let mut text = String::from_str("    val queryParts = mutableListOf<String>()\n");
    text.append(pushes.as_str());
    text.append("    val query = queryParts.joinToString(\"&\")\n");
    text
}

/// The text of a value known present, at the field's own top level.
fn present_kotlin_wire_text_of(field: &FieldDef, expr: &str, names: &KotlinNames, tuples: &mut TupleWrappers) -> (text: String)
    ensures
        (text@, tuples_of(*final(tuples))) == present_wire_text(
            *field,
            field.array_depth as nat,
            expr@,
            true,
            *names,
            tuples_of(*old(tuples)),
        ),
{
    if field.optional {
        present_kotlin_wire_text(field, field.array_depth, expr, true, names, tuples)
    } else {
        kotlin_wire_text(field, field.array_depth, expr, true, names, tuples)
    }
}

/// One header per `header_in` binding, one left out where its optional argument holds nothing.
pub open spec fn header_lines_text(headers: Seq<HeaderBinding>, names: KotlinNames, st: Tuples) -> (Seq<char>, Tuples)
    decreases headers.len(),
{
    if headers.len() == 0 {
        (Seq::empty(), st)
    } else {
        let (before, s1) = header_lines_text(headers.drop_last(), names, st);
        let header = headers.last();
        let prop = camel_case(header.parameter@);
        let (text, s2) = present_wire_text(header.ty, header.ty.array_depth as nat, prop, true, names, s1);
        if header.ty.optional {
            (before + "    "@ + prop + "?.let { headers.add(\""@ + header.name@ + "\" to "@ + text + ") }\n"@, s2)
        } else {
            (before + "    headers.add(\""@ + header.name@ + "\" to "@ + text + ")\n"@, s2)
        }
    }
}

pub open spec fn header_in_build_text(shape: HttpShape, names: KotlinNames, st: Tuples) -> (Seq<char>, Tuples) {
    if shape.header_in@.len() == 0 {
        ("    val headers = emptyList<Pair<String, String>>()\n"@, st)
    } else {
        let (lines, s1) = header_lines_text(shape.header_in@, names, st);
        ("    val headers = mutableListOf<Pair<String, String>>()\n"@ + lines, s1)
    }
}

pub fn header_in_build_stmt(shape: &HttpShape, names: &KotlinNames, tuples: &mut TupleWrappers) -> (text: String)
    ensures
        (text@, tuples_of(*final(tuples))) == header_in_build_text(*shape, *names, tuples_of(*old(tuples))),
{
    if shape.header_in.len() == 0 {
        return String::from_str("    val headers = emptyList<Pair<String, String>>()\n");
    }
    let ghost start = tuples_of(*tuples);
    let mut lines = String::new();
    let mut i: usize = 0;
    while i < shape.header_in.len()
        invariant
            0 <= i <= shape.header_in.len(),
            (lines@, tuples_of(*tuples)) == header_lines_text(shape.header_in@.take(i as int), *names, start),
        decreases shape.header_in.len() - i,
    {
        assert(shape.header_in@.take(i + 1).drop_last() =~= shape.header_in@.take(i as int));
        let header = &shape.header_in[i];
        let prop = kotlin_property_name(header.parameter.as_str());
        let text = present_kotlin_wire_text_of(&header.ty, prop.as_str(), names, tuples);
        if header.ty.optional {
            lines.append("    ");
            lines.append(prop.as_str());
            lines.append("?.let { headers.add(\"");
            lines.append(header.name.as_str());
            lines.append("\" to ");
            lines.append(text.as_str());
            lines.append(") }\n");
        } else {
            lines.append("    headers.add(\"");
            lines.append(header.name.as_str());
            lines.append("\" to ");
            lines.append(text.as_str());
            lines.append(")\n");
        }
        i += 1;
    }
    assert(shape.header_in@.take(shape.header_in.len() as int) =~= shape.header_in@);
    let mut text = String::from_str("    val headers = mutableListOf<Pair<String, String>>()\n");
    text.append(lines.as_str());
    text
}

/// The body: the message JSON-encoded where the method carries one, else empty (a multipart
/// body travels as parts).
pub open spec fn body_build_text(shape: HttpShape, req_type: Seq<char>) -> Seq<char> {
    if shape.body_kind != BodyKind::Multipart && carries_body(shape.method) {
        "    val body = Json.encodeToString(serializer<"@ + req_type + ">(), req).encodeToByteArray()\n"@
    } else {
        "    val body = ByteArray(0)\n"@
    }
}

pub fn body_build_stmt(shape: &HttpShape, req_type: &str) -> (text: String)
    ensures
        text@ == body_build_text(*shape, req_type@),
{
    if shape.body_kind != BodyKind::Multipart && shape.method.carries_a_body() {
        let mut text = String::from_str("    val body = Json.encodeToString(serializer<");
        text.append(req_type);
        text.append(">(), req).encodeToByteArray()\n");
        text
    } else {
        String::from_str("    val body = ByteArray(0)\n")
    }
}

/// One part per argument no placeholder binds, an optional one left out where it holds nothing.
pub open spec fn field_parts_text(
    fields: Seq<InputField>,
    placeholders: Seq<Seq<char>>,
    names: KotlinNames,
    st: Tuples,
) -> (Seq<char>, Tuples)
    decreases fields.len(),
{
    if fields.len() == 0 {
        (Seq::empty(), st)
    } else {
        let (before, s1) = field_parts_text(fields.drop_last(), placeholders, names, st);
        let field = fields.last();
        let prop = camel_case(field.ident@);
        if placeholders.contains(field.ident@) {
            (before, s1)
        } else if field.ty.optional {
            let (text, s2) = present_wire_text(field.ty, field.ty.array_depth as nat, "it"@, true, names, s1);
            (before + "    req."@ + prop + "?.let { parts.add(\""@ + field.wire_key@ + "\" to "@ + text + ") }\n"@, s2)
        } else {
            let (text, s2) = wire_text(field.ty, field.ty.array_depth as nat, "req."@ + prop, false, names, s1);
            (before + "    parts.add(\""@ + field.wire_key@ + "\" to "@ + text + ")\n"@, s2)
        }
    }
}

/// One part per `part` binding, its argument passed through untouched.
pub open spec fn bound_parts_text(parts: Seq<HeaderBinding>) -> Seq<char>
    decreases parts.len(),
{
    if parts.len() == 0 {
        Seq::empty()
    } else {
        let part = parts.last();
        bound_parts_text(parts.drop_last()) + "    parts.add(\""@ + part.name@ + "\" to "@ + camel_case(part.parameter@)
            + ")\n"@
    }
}

/// The parts a multipart method sends: nothing at all in a service that declares no multipart
/// body, an empty list for any other body.
pub open spec fn parts_build_text(operation: OperationDef, has_multipart: bool, names: KotlinNames, st: Tuples) -> (
    Seq<char>,
    Tuples,
) {
    if !has_multipart {
        (Seq::empty(), st)
    } else if operation.http.body_kind != BodyKind::Multipart {
        ("    val parts = emptyList<Pair<String, Any?>>()\n"@, st)
    } else {
        let (fields, s1) = match operation.inputs {
            OperationInputs::Generated(fields) => field_parts_text(
                fields@,
                placeholder_names(operation.http.path@),
                names,
                st,
            ),
            _ => (Seq::empty(), st),
        };
        (
            "    val parts = mutableListOf<Pair<String, Any?>>()\n"@ + fields + bound_parts_text(
                operation.http.multipart_parts@,
            ),
            s1,
        )
    }
}

pub fn multipart_parts_build_stmt(
    operation: &OperationDef,
    has_multipart: bool,
    names: &KotlinNames,
    tuples: &mut TupleWrappers,
) -> (text: String)
    ensures
        (text@, tuples_of(*final(tuples))) == parts_build_text(
            *operation,
            has_multipart,
            *names,
            tuples_of(*old(tuples)),
        ),
{
    if !has_multipart {
        return String::new();
    }
    if operation.http.body_kind != BodyKind::Multipart {
        return String::from_str("    val parts = emptyList<Pair<String, Any?>>()\n");
    }
    let mut text = String::from_str("    val parts = mutableListOf<Pair<String, Any?>>()\n");
    if let OperationInputs::Generated(fields) = &operation.inputs {
        let placeholders = operation.http.placeholder_names();
        let ghost start = tuples_of(*tuples);
        let ghost head = text@;
        let mut i: usize = 0;
        while i < fields.len()
            invariant
                0 <= i <= fields.len(),
                ({
                    let (lines, after) = field_parts_text(
                        fields@.take(i as int),
                        views(placeholders@),
                        *names,
                        start,
                    );
                    text@ == head + lines && tuples_of(*tuples) == after
                }),
            decreases fields.len() - i,
        {
            assert(fields@.take(i + 1).drop_last() =~= fields@.take(i as int));
            let field = &fields[i];
            if !contains_name(&placeholders, field.ident.as_str()) {
                let prop = kotlin_property_name(field.ident.as_str());
                if field.ty.optional {
                    let rendered = present_kotlin_wire_text_of(&field.ty, "it", names, tuples);
                    text.append("    req.");
                    text.append(prop.as_str());
                    text.append("?.let { parts.add(\"");
                    text.append(field.wire_key.as_str());
                    text.append("\" to ");
                    text.append(rendered.as_str());
                    text.append(") }\n");
                } else {
                    let mut expr = String::from_str("req.");
                    expr.append(prop.as_str());
                    let rendered = kotlin_wire_text(&field.ty, field.ty.array_depth, expr.as_str(), false, names, tuples);
                    text.append("    parts.add(\"");
                    text.append(field.wire_key.as_str());
                    text.append("\" to ");
                    text.append(rendered.as_str());
                    text.append(")\n");
                }
            }
            i += 1;
        }
        assert(fields@.take(fields.len() as int) =~= fields@);
    }
    let parts = &operation.http.multipart_parts;
    let ghost head = text@;
    let mut j: usize = 0;
    while j < parts.len()
        invariant
            0 <= j <= parts.len(),
            parts == &operation.http.multipart_parts,
            text@ == head + bound_parts_text(parts@.take(j as int)),
        decreases parts.len() - j,
    {
        assert(parts@.take(j + 1).drop_last() =~= parts@.take(j as int));
        let part = &parts[j];
        text.append("    parts.add(\"");
        text.append(part.name.as_str());
        text.append("\" to ");
        text.append(kotlin_property_name(part.parameter.as_str()).as_str());
        text.append(")\n");
        j += 1;
    }
    assert(parts@.take(parts.len() as int) =~= parts@);
    text
}

} // verus!

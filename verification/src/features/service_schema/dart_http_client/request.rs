//! How one Dart `http_rest` method builds its request from the operation's message: the path
//! with each placeholder URI-encoded, the query a bodyless method sends, the headers bound to its
//! arguments (each checked before it is added), the body, and the parts of a multipart body.
use super::wire::{dart_escape, dart_escaped, dart_wire, dart_wire_text, present_dart_wire, present_dart_wire_text};
use crate::features::dart::{class_name, class_name_of, dart_type, dart_typename, DartNames};
use crate::features::service_schema::result::{result_name, result_name_text};
use crate::field_type::contains_name;
use crate::service_def::{
    carries_body, find_input, input_named, placeholder_names, BodyKind, HeaderBinding, HttpShape, InputField, OperationDef, OperationInputs,
    OperationOutcome, PathSegment,
};
use crate::text::{join, join_all, views};
use vstd::prelude::*;

verus! {

/// The message's Dart type: the type the operation named, the one the macro declared for an
/// operation that named none, else `dynamic`.
pub open spec fn message_dart_text(operation: OperationDef, names: DartNames) -> Seq<char> {
    match operation.inputs {
        OperationInputs::Named(declared) => dart_type(declared, names),
        _ => match operation.generated_message {
            Some(ident) => class_name_of(names, ident@),
            None => "dynamic"@,
        },
    }
}

pub fn message_dart_typename(operation: &OperationDef, names: &DartNames) -> (text: String)
    ensures
        text@ == message_dart_text(*operation, *names),
{
    match &operation.inputs {
        OperationInputs::Named(declared) => dart_typename(declared, names),
        _ => match &operation.generated_message {
            Some(ident) => class_name(names, ident),
            None => String::from_str("dynamic"),
        },
    }
}

/// `Type parameter` for each binding, the Rust parameter spelled as declared.
pub open spec fn dart_binding_params(bindings: Seq<HeaderBinding>, names: DartNames) -> Seq<Seq<char>> {
    bindings.map_values(|binding: HeaderBinding| dart_type(binding.ty, names) + " "@ + binding.parameter@)
}

fn push_binding_params(params: &mut Vec<String>, bindings: &Vec<HeaderBinding>, names: &DartNames)
    ensures
        views(final(params)@) == views(old(params)@) + dart_binding_params(bindings@, *names),
{
    let ghost head = views(params@);
    let mut i: usize = 0;
    while i < bindings.len()
        invariant
            0 <= i <= bindings.len(),
            views(params@) == head + dart_binding_params(bindings@.take(i as int), *names),
        decreases bindings.len() - i,
    {
        let binding = &bindings[i];
        let mut param = dart_typename(&binding.ty, names);
        param.append(" ");
        param.append(binding.parameter.as_str());
        let ghost before = views(params@);
        params.push(param);
        proof {
            assert(views(params@) =~= before.push(param@));
            assert(dart_binding_params(bindings@.take(i + 1), *names) =~= dart_binding_params(
                bindings@.take(i as int),
                *names,
            ).push(param@));
        }
        i += 1;
    }
    assert(bindings@.take(bindings.len() as int) =~= bindings@);
}

/// The message first, then one argument per `header_in` binding and one per `part` binding.
pub open spec fn method_params_text(operation: OperationDef, names: DartNames) -> Seq<char> {
    join(
        seq![message_dart_text(operation, names) + " req"@] + dart_binding_params(operation.http.header_in@, names)
            + dart_binding_params(operation.http.multipart_parts@, names),
        ", "@,
    )
}

pub fn method_params(operation: &OperationDef, names: &DartNames) -> (text: String)
    ensures
        text@ == method_params_text(*operation, *names),
{
    let mut first = message_dart_typename(operation, names);
    first.append(" req");
    let mut params: Vec<String> = Vec::new();
    params.push(first);
    assert(views(params@) =~= seq![message_dart_text(*operation, *names) + " req"@]);
    push_binding_params(&mut params, &operation.http.header_in, names);
    push_binding_params(&mut params, &operation.http.multipart_parts, names);
    join_all(&params, ", ")
}

/// The text one path placeholder reads off `req`: the field the placeholder names, or the whole
/// message where the message is itself one wire scalar bound by the path's only placeholder.
pub open spec fn placeholder_value_text(operation: OperationDef, placeholder: Seq<char>) -> Seq<char> {
    let plain = "'${req."@ + placeholder + "}'"@;
    match operation.inputs {
        OperationInputs::Empty => plain,
        OperationInputs::Generated(fields) => match input_named(
            fields@,
            placeholder,
        ) {
            Some(field) => dart_wire(field.ty, field.ty.array_depth as nat, "req."@ + placeholder, false),
            None => plain,
        },
        OperationInputs::Named(declared) => if placeholder_names(operation.http.path@).len() == 1
            && operation.scalar_message {
            dart_wire(declared, declared.array_depth as nat, "req"@, true)
        } else {
            plain
        },
    }
}

fn placeholder_value(operation: &OperationDef, placeholder: &str) -> (text: String)
    ensures
        text@ == placeholder_value_text(*operation, placeholder@),
{
    let mut plain = String::from_str("'${req.");
    plain.append(placeholder);
    plain.append("}'");
    match &operation.inputs {
        OperationInputs::Empty => plain,
        OperationInputs::Generated(fields) => match find_input(
            fields,
            placeholder,
        ) {
            Some(field) => {
                let mut expr = String::from_str("req.");
                expr.append(placeholder);
                dart_wire_text(&field.ty, field.ty.array_depth, expr.as_str(), false)
            },
            None => plain,
        },
        OperationInputs::Named(declared) => if operation.http.placeholder_names().len() == 1
            && operation.scalar_message {
            dart_wire_text(declared, declared.array_depth, "req", true)
        } else {
            plain
        },
    }
}

/// One line per path segment: a literal appended as written, a placeholder's value appended
/// URI-encoded.
pub open spec fn path_lines_text(operation: OperationDef, segments: Seq<PathSegment>) -> Seq<char>
    decreases segments.len(),
{
    if segments.len() == 0 {
        Seq::empty()
    } else {
        path_lines_text(operation, segments.drop_last()) + match segments.last() {
            PathSegment::Literal(text) => "    path += '"@ + dart_escaped(text@) + "';\n"@,
            PathSegment::Placeholder(name) => "    path += Uri.encodeComponent("@ + placeholder_value_text(
                operation,
                name@,
            ) + ");\n"@,
        }
    }
}

pub open spec fn path_build_text(operation: OperationDef) -> Seq<char> {
    "    var path = '';\n"@ + path_lines_text(operation, operation.http.path@)
}

pub fn path_build_stmt(operation: &OperationDef) -> (text: String)
    ensures
        text@ == path_build_text(*operation),
{
    let segments = &operation.http.path;
    let mut lines = String::new();
    let mut i: usize = 0;
    while i < segments.len()
        invariant
            0 <= i <= segments.len(),
            segments == &operation.http.path,
            lines@ == path_lines_text(*operation, segments@.take(i as int)),
        decreases segments.len() - i,
    {
        assert(segments@.take(i + 1).drop_last() =~= segments@.take(i as int));
        match &segments[i] {
            PathSegment::Literal(text) => {
                lines.append("    path += '");
                lines.append(dart_escape(text.as_str()).as_str());
                lines.append("';\n");
            },
            PathSegment::Placeholder(name) => {
                lines.append("    path += Uri.encodeComponent(");
                lines.append(placeholder_value(operation, name.as_str()).as_str());
                lines.append(");\n");
            },
        }
        i += 1;
    }
    assert(segments@.take(segments.len() as int) =~= segments@);
    let mut text = String::from_str("    var path = '';\n");
    text.append(lines.as_str());
    text
}

/// One query entry per field no placeholder binds, added where the field holds a value; how many
/// such fields there are.
pub open spec fn query_pushes_text(fields: Seq<InputField>, placeholders: Seq<Seq<char>>) -> (Seq<char>, nat)
    decreases fields.len(),
{
    if fields.len() == 0 {
        (Seq::empty(), 0)
    } else {
        let (before, count) = query_pushes_text(fields.drop_last(), placeholders);
        let field = fields.last();
        if placeholders.contains(field.ident@) {
            (before, count)
        } else {
            (
                before + "    {\n      final value = req."@ + field.ident@
                    + ";\n      if (value != null) {\n        queryParts.add('"@ + field.wire_key@
                    + "=' + Uri.encodeComponent("@ + present_dart_wire(
                    field.ty,
                    field.ty.array_depth as nat,
                    "value"@,
                    true,
                ) + "));\n      }\n    }\n"@,
                count + 1,
            )
        }
    }
}

/// The query a bodyless method sends: one entry per argument no placeholder binds; nothing for a
/// method carrying a body, or a message that is empty or declared by the author.
pub open spec fn query_build_text(operation: OperationDef) -> Seq<char> {
    let none = "    const query = '';\n"@;
    if carries_body(operation.http.method) {
        none
    } else {
        match operation.inputs {
            OperationInputs::Generated(fields) => {
                let (pushes, count) = query_pushes_text(fields@, placeholder_names(operation.http.path@));
                if count == 0 {
                    none
                } else {
                    "    final queryParts = <String>[];\n"@ + pushes + "    final query = queryParts.join('&');\n"@
                }
            },
            _ => none,
        }
    }
}

pub fn query_build_stmt(operation: &OperationDef) -> (text: String)
    ensures
        text@ == query_build_text(*operation),
{
    if operation.http.method.carries_a_body() {
        return String::from_str("    const query = '';\n");
    }
    let fields = match &operation.inputs {
        OperationInputs::Generated(fields) => fields,
        _ => {
            return String::from_str("    const query = '';\n");
        },
    };
    let placeholders = operation.http.placeholder_names();
    let mut pushes = String::new();
    let mut count: usize = 0;
    let mut i: usize = 0;
    while i < fields.len()
        invariant
            0 <= i <= fields.len(),
            count <= i,
            (pushes@, count as nat) == query_pushes_text(fields@.take(i as int), views(placeholders@)),
        decreases fields.len() - i,
    {
        assert(fields@.take(i + 1).drop_last() =~= fields@.take(i as int));
        let field = &fields[i];
        if !contains_name(&placeholders, field.ident.as_str()) {
            let rendered = present_dart_wire_text(&field.ty, field.ty.array_depth, "value", true);
            pushes.append("    {\n      final value = req.");
            pushes.append(field.ident.as_str());
            pushes.append(";\n      if (value != null) {\n        queryParts.add('");
            pushes.append(field.wire_key.as_str());
            pushes.append("=' + Uri.encodeComponent(");
            pushes.append(rendered.as_str());
            pushes.append("));\n      }\n    }\n");
            count += 1;
        }
        i += 1;
    }
    assert(fields@.take(fields.len() as int) =~= fields@);
    if count == 0 {
        return String::from_str("    const query = '';\n");
    }
    let mut text = String::from_str("    final queryParts = <String>[];\n");
    text.append(pushes.as_str());
    text.append("    final query = queryParts.join('&');\n");
    text
}

/// What a header value failing the safety check answers, before the transport is reached: a
/// one-way method throws its refusal, a reply method answers the fault.
pub open spec fn outbound_refusal_text(named: Seq<char>, operation: OperationDef, fault: Seq<char>) -> Seq<char> {
    match operation.outcome {
        OperationOutcome::OneWay => "throw "@ + named + "HttpRefusal("@ + fault + ");"@,
        _ => "return "@ + result_name_text(named, operation)->0 + "Fault("@ + fault + ");"@,
    }
}

pub fn outbound_refusal_stmt(named: &str, operation: &OperationDef, fault: &str) -> (text: String)
    ensures
        text@ == outbound_refusal_text(named@, *operation, fault@),
{
    match &operation.outcome {
        OperationOutcome::OneWay => {
            let mut text = String::from_str("throw ");
            text.append(named);
            text.append("HttpRefusal(");
            text.append(fault);
            text.append(");");
            text
        },
        _ => {
            let result = match result_name(named, operation) {
                Some(result) => result,
                None => String::new(),
            };
            let mut text = String::from_str("return ");
            text.append(result.as_str());
            text.append("Fault(");
            text.append(fault);
            text.append(");");
            text
        },
    }
}

/// The statements adding one header, once its rendered value passed the safety check.
pub open spec fn checked_header_text(named: Seq<char>, fn_prefix: Seq<char>, operation: OperationDef, name: Seq<char>) -> Seq<
    char,
> {
    let fault = "_"@ + fn_prefix + "HttpOutboundFault('"@ + operation.wire_name@ + "', '"@ + name
        + "', 'a header value contains a character illegal in an HTTP header')"@;
    "      if (!_"@ + fn_prefix + "HttpLegalHeaderValue(rendered)) {\n        "@ + outbound_refusal_text(
        named,
        operation,
        fault,
    ) + "\n      }\n      headers.add(('"@ + name + "', rendered));\n"@
}

fn checked_header(named: &str, fn_prefix: &str, operation: &OperationDef, name: &str) -> (text: String)
    ensures
        text@ == checked_header_text(named@, fn_prefix@, *operation, name@),
{
    let mut fault = String::from_str("_");
    fault.append(fn_prefix);
    fault.append("HttpOutboundFault('");
    fault.append(operation.wire_name.as_str());
    fault.append("', '");
    fault.append(name);
    fault.append("', 'a header value contains a character illegal in an HTTP header')");
    let mut text = String::from_str("      if (!_");
    text.append(fn_prefix);
    text.append("HttpLegalHeaderValue(rendered)) {\n        ");
    text.append(outbound_refusal_stmt(named, operation, fault.as_str()).as_str());
    text.append("\n      }\n      headers.add(('");
    text.append(name);
    text.append("', rendered));\n");
    text
}

/// One header per `header_in` binding, one left out where its optional argument holds nothing.
pub open spec fn header_lines_text(
    named: Seq<char>,
    fn_prefix: Seq<char>,
    operation: OperationDef,
    headers: Seq<HeaderBinding>,
) -> Seq<char>
    decreases headers.len(),
{
    if headers.len() == 0 {
        Seq::empty()
    } else {
        let header = headers.last();
        let parameter = header.parameter@;
        let text = present_dart_wire(header.ty, header.ty.array_depth as nat, parameter, true);
        let checked = checked_header_text(named, fn_prefix, operation, header.name@);
        header_lines_text(named, fn_prefix, operation, headers.drop_last()) + if header.ty.optional {
            "    if ("@ + parameter + " != null) {\n      final rendered = "@ + text + ";\n"@ + checked + "    }\n"@
        } else {
            "    {\n      final rendered = "@ + text + ";\n"@ + checked + "    }\n"@
        }
    }
}

pub open spec fn header_in_build_text(named: Seq<char>, fn_prefix: Seq<char>, operation: OperationDef) -> Seq<char> {
    if operation.http.header_in@.len() == 0 {
        "    const headers = <(String, String)>[];\n"@
    } else {
        "    final headers = <(String, String)>[];\n"@ + header_lines_text(
            named,
            fn_prefix,
            operation,
            operation.http.header_in@,
        )
    }
}

pub fn header_in_build_stmt(named: &str, fn_prefix: &str, operation: &OperationDef) -> (text: String)
    ensures
        text@ == header_in_build_text(named@, fn_prefix@, *operation),
{
    let headers = &operation.http.header_in;
    if headers.len() == 0 {
        return String::from_str("    const headers = <(String, String)>[];\n");
    }
    let mut lines = String::new();
    let mut i: usize = 0;
    while i < headers.len()
        invariant
            0 <= i <= headers.len(),
            headers == &operation.http.header_in,
            lines@ == header_lines_text(named@, fn_prefix@, *operation, headers@.take(i as int)),
        decreases headers.len() - i,
    {
        assert(headers@.take(i + 1).drop_last() =~= headers@.take(i as int));
        let header = &headers[i];
        let parameter = header.parameter.as_str();
        let text = if header.ty.optional {
            present_dart_wire_text(&header.ty, header.ty.array_depth, parameter, true)
        } else {
            dart_wire_text(&header.ty, header.ty.array_depth, parameter, true)
        };
        let checked = checked_header(named, fn_prefix, operation, header.name.as_str());
        if header.ty.optional {
            lines.append("    if (");
            lines.append(parameter);
            lines.append(" != null) {\n      final rendered = ");
        } else {
            lines.append("    {\n      final rendered = ");
        }
        lines.append(text.as_str());
        lines.append(";\n");
        lines.append(checked.as_str());
        lines.append("    }\n");
        i += 1;
    }
    assert(headers@.take(headers.len() as int) =~= headers@);
    let mut text = String::from_str("    final headers = <(String, String)>[];\n");
    text.append(lines.as_str());
    text
}

/// The body: the message JSON-encoded where the method carries one, else empty (a multipart
/// body travels as parts).
pub open spec fn body_build_text(shape: HttpShape) -> Seq<char> {
    if shape.body_kind != BodyKind::Multipart && carries_body(shape.method) {
        "    final body = utf8.encode(jsonEncode(req.toJson()));\n"@
    } else {
        "    const body = <int>[];\n"@
    }
}

pub fn body_build_stmt(shape: &HttpShape) -> (text: String)
    ensures
        text@ == body_build_text(*shape),
{
    if shape.body_kind != BodyKind::Multipart && shape.method.carries_a_body() {
        String::from_str("    final body = utf8.encode(jsonEncode(req.toJson()));\n")
    } else {
        String::from_str("    const body = <int>[];\n")
    }
}

/// One part per argument no placeholder binds, an optional one left out where it holds nothing.
pub open spec fn field_parts_text(fields: Seq<InputField>, placeholders: Seq<Seq<char>>) -> Seq<char>
    decreases fields.len(),
{
    if fields.len() == 0 {
        Seq::empty()
    } else {
        let field = fields.last();
        let name = field.ident@;
        let before = field_parts_text(fields.drop_last(), placeholders);
        if placeholders.contains(name) {
            before
        } else if field.ty.optional {
            before + "    if (req."@ + name + " != null) {\n      parts.add(('"@ + field.wire_key@ + "', "@
                + present_dart_wire(field.ty, field.ty.array_depth as nat, "req."@ + name + "!"@, false) + "));\n    }\n"@
        } else {
            before + "    parts.add(('"@ + field.wire_key@ + "', "@ + dart_wire(
                field.ty,
                field.ty.array_depth as nat,
                "req."@ + name,
                false,
            ) + "));\n"@
        }
    }
}

/// One part per `part` binding, its argument passed through untouched.
pub open spec fn bound_parts_text(parts: Seq<HeaderBinding>) -> Seq<char>
    decreases parts.len(),
{
    if parts.len() == 0 {
        Seq::empty()
    } else {
        let part = parts.last();
        bound_parts_text(parts.drop_last()) + "    parts.add(('"@ + part.name@ + "', "@ + part.parameter@ + "));\n"@
    }
}

/// The parts a method sends: the arguments and the `part` bindings of a multipart body, an empty
/// list for any other body.
pub open spec fn parts_build_text(operation: OperationDef) -> Seq<char> {
    if operation.http.body_kind != BodyKind::Multipart {
        "    const parts = <(String, dynamic)>[];\n"@
    } else {
        let fields = match operation.inputs {
            OperationInputs::Generated(fields) => field_parts_text(fields@, placeholder_names(operation.http.path@)),
            _ => Seq::empty(),
        };
        "    final parts = <(String, dynamic)>[];\n"@ + fields + bound_parts_text(operation.http.multipart_parts@)
    }
}

pub fn multipart_parts_build_stmt(operation: &OperationDef) -> (text: String)
    ensures
        text@ == parts_build_text(*operation),
{
    if operation.http.body_kind != BodyKind::Multipart {
        return String::from_str("    const parts = <(String, dynamic)>[];\n");
    }
    let mut text = String::from_str("    final parts = <(String, dynamic)>[];\n");
    if let OperationInputs::Generated(fields) = &operation.inputs {
        let placeholders = operation.http.placeholder_names();
        let ghost head = text@;
        let mut i: usize = 0;
        while i < fields.len()
            invariant
                0 <= i <= fields.len(),
                text@ == head + field_parts_text(fields@.take(i as int), views(placeholders@)),
            decreases fields.len() - i,
        {
            assert(fields@.take(i + 1).drop_last() =~= fields@.take(i as int));
            let field = &fields[i];
            let name = field.ident.as_str();
            if !contains_name(&placeholders, name) {
                let mut expr = String::from_str("req.");
                expr.append(name);
                if field.ty.optional {
                    expr.append("!");
                    let rendered = present_dart_wire_text(&field.ty, field.ty.array_depth, expr.as_str(), false);
                    text.append("    if (req.");
                    text.append(name);
                    text.append(" != null) {\n      parts.add(('");
                    text.append(field.wire_key.as_str());
                    text.append("', ");
                    text.append(rendered.as_str());
                    text.append("));\n    }\n");
                } else {
                    let rendered = dart_wire_text(&field.ty, field.ty.array_depth, expr.as_str(), false);
                    text.append("    parts.add(('");
                    text.append(field.wire_key.as_str());
                    text.append("', ");
                    text.append(rendered.as_str());
                    text.append("));\n");
                }
            }
            i += 1;
        }
        assert(fields@.take(fields.len() as int) =~= fields@);
    }
    let parts = &operation.http.multipart_parts;
    let ghost head = text@;
    let mut j: usize = 0;
    while j < parts.len()
        invariant
            0 <= j <= parts.len(),
            parts == &operation.http.multipart_parts,
            text@ == head + bound_parts_text(parts@.take(j as int)),
        decreases parts.len() - j,
    {
        assert(parts@.take(j + 1).drop_last() =~= parts@.take(j as int));
        let part = &parts[j];
        text.append("    parts.add(('");
        text.append(part.name.as_str());
        text.append("', ");
        text.append(part.parameter.as_str());
        text.append("));\n");
        j += 1;
    }
    assert(parts@.take(parts.len() as int) =~= parts@);
    text
}

} // verus!

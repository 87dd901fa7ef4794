//! How one TypeScript `http_rest` method builds its request from the validated message: the
//! outbound check, the path with each placeholder URI-encoded, the query a bodyless method sends,
//! the headers bound to its arguments, the body, and the parts of a multipart body.
use crate::features::service_schema::message::{schema, schema_text, typename, typename_text};
use crate::field_type::{contains_name, ts_typename, typescript_typename, Recorded};
use crate::rename_rule::{camel_case, camel_case_of_field};
use crate::service_def::{
    carries_body, method_name, path_template, placeholder_names, BodyKind, HeaderBinding, HttpShape, InputField,
    OperationDef, OperationInputs, OperationOutcome, PathSegment,
};
use crate::text::{join, join_all, views};
use vstd::prelude::*;

verus! {

/// `name: Type` for each binding, the Rust parameter in `camelCase`.
pub open spec fn binding_params_text(bindings: Seq<HeaderBinding>, recorded: Recorded) -> Seq<Seq<char>> {
    bindings.map_values(|binding: HeaderBinding| camel_case(binding.parameter@) + ": "@ + ts_typename(binding.ty, recorded))
}

pub(crate) fn push_binding_params(params: &mut Vec<String>, bindings: &Vec<HeaderBinding>, recorded: &Recorded)
    ensures
        views(final(params)@) == views(old(params)@) + binding_params_text(bindings@, *recorded),
{
    let ghost head = views(params@);
    let mut i: usize = 0;
    while i < bindings.len()
        invariant
            0 <= i <= bindings.len(),
            views(params@) == head + binding_params_text(bindings@.take(i as int), *recorded),
        decreases bindings.len() - i,
    {
        let binding = &bindings[i];
        let mut param = camel_case_of_field(binding.parameter.as_str());
        param.append(": ");
        param.append(typescript_typename(&binding.ty, recorded).as_str());
        let ghost before = views(params@);
        params.push(param);
        proof {
            assert(views(params@) =~= before.push(param@));
            assert(binding_params_text(bindings@.take(i + 1), *recorded) =~= binding_params_text(
                bindings@.take(i as int),
                *recorded,
            ).push(param@));
        }
        i += 1;
    }
    assert(bindings@.take(bindings.len() as int) =~= bindings@);
}

/// The message first, then one argument per `header_in` binding and one per `part` binding, in
/// declaration order.
pub open spec fn method_params_text(operation: OperationDef, recorded: Recorded) -> Seq<char> {
    join(
        seq!["req: "@ + typename_text(operation, recorded)] + binding_params_text(operation.http.header_in@, recorded)
            + binding_params_text(operation.http.multipart_parts@, recorded),
        ", "@,
    )
}

pub fn method_params(operation: &OperationDef, recorded: &Recorded) -> (text: String)
    ensures
        text@ == method_params_text(*operation, *recorded),
{
    let mut first = String::from_str("req: ");
    first.append(typename(operation, recorded).as_str());
    let mut params: Vec<String> = Vec::new();
    params.push(first);
    assert(views(params@) =~= seq!["req: "@ + typename_text(*operation, *recorded)]);
    push_binding_params(&mut params, &operation.http.header_in, recorded);
    push_binding_params(&mut params, &operation.http.multipart_parts, recorded);
    join_all(&params, ", ")
}

/// The line of documentation a member carries: the operation and the route it calls.
pub open spec fn method_doc_text(operation: OperationDef) -> Seq<char> {
    "  /** Calls `"@ + operation.wire_name@ + "` over `"@ + method_name(operation.http.method) + " "@
        + path_template(operation.http.path@) + "`. */"@
}

pub fn method_doc(operation: &OperationDef) -> (text: String)
    ensures
        text@ == method_doc_text(*operation),
{
    let mut text = String::from_str("  /** Calls `");
    text.append(operation.wire_name.as_str());
    text.append("` over `");
    text.append(operation.http.method.name());
    text.append(" ");
    text.append(operation.http.path_template().as_str());
    text.append("`. */");
    text
}

/// The outbound check and the refusal it leads to: a message failing its schema is answered
/// before the transport is named, thrown by a one-way method and returned as a fault by a reply
/// method.
pub open spec fn validation_text(prefix: Seq<char>, operation: OperationDef, recorded: Recorded) -> Seq<char> {
    let wire = operation.wire_name@;
    let refusal = match operation.outcome {
        OperationOutcome::OneWay => "        throw "@ + prefix + "HttpRefused(\n          "@ + prefix
            + "HttpOutboundFault(\""@ + wire + "\", validated.error.issues),\n        );\n"@,
        OperationOutcome::Reply { .. } =>
            "        return {\n          ok: false,\n          error: {\n            isServiceFault: true,\n            fault: "@
            + prefix + "HttpOutboundFault(\""@ + wire + "\", validated.error.issues),\n          },\n        };\n"@,
    };
    "      const validated = "@ + schema_text(operation, recorded) + ".safeParse(req);\n      if (!validated.success) {\n"@
        + refusal + "      }\n"@
}

pub fn validation_stmt(prefix: &str, operation: &OperationDef, recorded: &Recorded) -> (text: String)
    ensures
        text@ == validation_text(prefix@, *operation, *recorded),
{
    let wire = operation.wire_name.as_str();
    let refusal = match operation.outcome {
        OperationOutcome::OneWay => {
            let mut text = String::from_str("        throw ");
            text.append(prefix);
            text.append("HttpRefused(\n          ");
            text.append(prefix);
            text.append("HttpOutboundFault(\"");
            text.append(wire);
            text.append("\", validated.error.issues),\n        );\n");
            text
        },
        OperationOutcome::Reply { .. } => {
            let mut text = String::from_str(
                "        return {\n          ok: false,\n          error: {\n            isServiceFault: true,\n            fault: ",
            );
            text.append(prefix);
            text.append("HttpOutboundFault(\"");
            text.append(wire);
            text.append("\", validated.error.issues),\n          },\n        };\n");
            text
        },
    };
    let mut text = String::from_str("      const validated = ");
    text.append(schema(operation, recorded).as_str());
    text.append(".safeParse(req);\n      if (!validated.success) {\n");
    text.append(refusal.as_str());
    text.append("      }\n");
    text
}

/// The value one path placeholder reads off `sending`: a declared argument under its `camelCase`
/// name; the whole message where an author's message answers the path's only placeholder; that
/// message's field, spelled as the placeholder spells it, otherwise.
pub open spec fn placeholder_value_text(operation: OperationDef, placeholder: Seq<char>) -> Seq<char> {
    match operation.inputs {
        OperationInputs::Empty => "sending"@,
        OperationInputs::Generated(_) => "sending."@ + camel_case(placeholder),
        OperationInputs::Named(_) => if placeholder_names(operation.http.path@).len() == 1 {
            "sending"@
        } else {
            "sending."@ + placeholder
        },
    }
}

fn placeholder_value(operation: &OperationDef, placeholder: &str) -> (text: String)
    ensures
        text@ == placeholder_value_text(*operation, placeholder@),
{
    match &operation.inputs {
        OperationInputs::Empty => String::from_str("sending"),
        OperationInputs::Generated(_) => {
            let mut text = String::from_str("sending.");
            text.append(camel_case_of_field(placeholder).as_str());
            text
        },
        OperationInputs::Named(_) => if operation.http.placeholder_names().len() == 1 {
            String::from_str("sending")
        } else {
            let mut text = String::from_str("sending.");
            text.append(placeholder);
            text
        },
    }
}

/// One line per path segment: a literal appended as written, a placeholder's value appended
/// URI-encoded.
pub open spec fn path_lines_text(operation: OperationDef, segments: Seq<PathSegment>) -> Seq<char>
    decreases segments.len(),
{
    if segments.len() == 0 {
        Seq::empty()
    } else {
        path_lines_text(operation, segments.drop_last()) + match segments.last() {
            PathSegment::Literal(text) => "      path += \""@ + text@ + "\";\n"@,
            PathSegment::Placeholder(name) => "      path += encodeURIComponent(String("@ + placeholder_value_text(
                operation,
                name@,
            ) + "));\n"@,
        }
    }
}

pub open spec fn path_build_text(operation: OperationDef) -> Seq<char> {
    "      let path = \"\";\n"@ + path_lines_text(operation, operation.http.path@)
}

pub fn path_build_stmt(operation: &OperationDef) -> (text: String)
    ensures
        text@ == path_build_text(*operation),
{
    let segments = &operation.http.path;
    let mut text = String::from_str("      let path = \"\";\n");
    let ghost head = text@;
    let mut i: usize = 0;
    while i < segments.len()
        invariant
            0 <= i <= segments.len(),
            segments == &operation.http.path,
            head == "      let path = \"\";\n"@,
            text@ == head + path_lines_text(*operation, segments@.take(i as int)),
        decreases segments.len() - i,
    {
        assert(segments@.take(i + 1).drop_last() =~= segments@.take(i as int));
        match &segments[i] {
            PathSegment::Literal(literal) => {
                text.append("      path += \"");
                text.append(literal.as_str());
                text.append("\";\n");
            },
            PathSegment::Placeholder(name) => {
                text.append("      path += encodeURIComponent(String(");
                text.append(placeholder_value(operation, name.as_str()).as_str());
                text.append("));\n");
            },
        }
        i += 1;
    }
    assert(segments@.take(segments.len() as int) =~= segments@);
    text
}

/// One query entry for an argument, under its wire key: a list joined by commas, anything else
/// as its own text; written only where the argument holds a value.
pub open spec fn query_push_text(field: InputField) -> Seq<char> {
    let key = field.wire_key@;
    if field.ty.array_depth > 0 {
        "      if (sending."@ + key + " !== undefined) {\n        const joined = sending."@ + key
            + ".map((element) => String(element)).join(\",\");\n        queryParts.push(`"@ + key
            + "=${encodeURIComponent(joined)}`);\n      }\n"@
    } else {
        "      if (sending."@ + key + " !== undefined) {\n        queryParts.push(`"@ + key
            + "=${encodeURIComponent(String(sending."@ + key + "))}`);\n      }\n"@
    }
}

fn query_push(field: &InputField) -> (text: String)
    ensures
        text@ == query_push_text(*field),
{
    let key = field.wire_key.as_str();
    let mut text = String::from_str("      if (sending.");
    text.append(key);
    if field.ty.array_depth > 0 {
        text.append(" !== undefined) {\n        const joined = sending.");
        text.append(key);
        text.append(".map((element) => String(element)).join(\",\");\n        queryParts.push(`");
        text.append(key);
        text.append("=${encodeURIComponent(joined)}`);\n      }\n");
    } else {
        text.append(" !== undefined) {\n        queryParts.push(`");
        text.append(key);
        text.append("=${encodeURIComponent(String(sending.");
        text.append(key);
        text.append("))}`);\n      }\n");
    }
    text
}

/// One query entry per argument no placeholder binds; how many such arguments there are.
pub open spec fn query_pushes_text(fields: Seq<InputField>, placeholders: Seq<Seq<char>>) -> (Seq<char>, nat)
    decreases fields.len(),
{
    if fields.len() == 0 {
        (Seq::empty(), 0)
    } else {
        let (before, count) = query_pushes_text(fields.drop_last(), placeholders);
        let field = fields.last();
        if placeholders.contains(field.ident@) {
            (before, count)
        } else {
            (before + query_push_text(field), count + 1)
        }
    }
}

/// The query a bodyless method sends: one entry per argument no placeholder binds; an empty
/// query for a method carrying a body, or a message that is empty or declared by the author.
pub open spec fn query_build_text(operation: OperationDef) -> Seq<char> {
    let none = "      const query = \"\";\n"@;
    if carries_body(operation.http.method) {
        none
    } else {
        match operation.inputs {
            OperationInputs::Generated(fields) => {
                let (pushes, count) = query_pushes_text(fields@, placeholder_names(operation.http.path@));
                if count == 0 {
                    none
                } else {
                    "      const queryParts: Array<string> = [];\n"@ + pushes
                        + "      const query = queryParts.join(\"&\");\n"@
                }
            },
            _ => none,
        }
    }
}

pub fn query_build_stmt(operation: &OperationDef) -> (text: String)
    ensures
        text@ == query_build_text(*operation),
{
    if operation.http.method.carries_a_body() {
        return String::from_str("      const query = \"\";\n");
    }
    let fields = match &operation.inputs {
        OperationInputs::Generated(fields) => fields,
        _ => {
            return String::from_str("      const query = \"\";\n");
        },
    };
    let placeholders = operation.http.placeholder_names();
    let mut pushes = String::new();
    let mut count: usize = 0;
    let mut i: usize = 0;
    while i < fields.len()
        invariant
            0 <= i <= fields.len(),
            count <= i,
            (pushes@, count as nat) == query_pushes_text(fields@.take(i as int), views(placeholders@)),
        decreases fields.len() - i,
    {
        assert(fields@.take(i + 1).drop_last() =~= fields@.take(i as int));
        let field = &fields[i];
        if !contains_name(&placeholders, field.ident.as_str()) {
            pushes.append(query_push(field).as_str());
            count += 1;
        }
        i += 1;
    }
    assert(fields@.take(fields.len() as int) =~= fields@);
    if count == 0 {
        return String::from_str("      const query = \"\";\n");
    }
    let mut text = String::from_str("      const queryParts: Array<string> = [];\n");
    text.append(pushes.as_str());
    text.append("      const query = queryParts.join(\"&\");\n");
    text
}

/// The header one `header_in` binding adds: pushed as text, and where the binding is optional,
/// only when its argument holds a value, so no request carries the text `undefined`.
pub open spec fn header_line_text(binding: HeaderBinding) -> Seq<char> {
    let parameter = camel_case(binding.parameter@);
    let name = binding.name@;
    if binding.ty.optional {
        "      if ("@ + parameter + " !== undefined) {\n        headers.push([\""@ + name + "\", String("@ + parameter
            + ")]);\n      }\n"@
    } else {
        "      headers.push([\""@ + name + "\", String("@ + parameter + ")]);\n"@
    }
}

fn header_line(binding: &HeaderBinding) -> (text: String)
    ensures
        text@ == header_line_text(*binding),
{
    let parameter = camel_case_of_field(binding.parameter.as_str());
    let name = binding.name.as_str();
    if binding.ty.optional {
        let mut text = String::from_str("      if (");
        text.append(parameter.as_str());
        text.append(" !== undefined) {\n        headers.push([\"");
        text.append(name);
        text.append("\", String(");
        text.append(parameter.as_str());
        text.append(")]);\n      }\n");
        text
    } else {
        let mut text = String::from_str("      headers.push([\"");
        text.append(name);
        text.append("\", String(");
        text.append(parameter.as_str());
        text.append(")]);\n");
        text
    }
}

pub open spec fn header_lines_text(bindings: Seq<HeaderBinding>) -> Seq<char>
    decreases bindings.len(),
{
    if bindings.len() == 0 {
        Seq::empty()
    } else {
        header_lines_text(bindings.drop_last()) + header_line_text(bindings.last())
    }
}

/// The outgoing headers: one entry per `header_in` binding, in declaration order.
pub open spec fn header_in_build_text(shape: HttpShape) -> Seq<char> {
    "      const headers: Array<[string, string]> = [];\n"@ + header_lines_text(shape.header_in@)
}

pub fn header_in_build_stmt(shape: &HttpShape) -> (text: String)
    ensures
        text@ == header_in_build_text(*shape),
{
    let bindings = &shape.header_in;
    let mut text = String::from_str("      const headers: Array<[string, string]> = [];\n");
    let ghost head = text@;
    let mut i: usize = 0;
    while i < bindings.len()
        invariant
            0 <= i <= bindings.len(),
            bindings == &shape.header_in,
            head == "      const headers: Array<[string, string]> = [];\n"@,
            text@ == head + header_lines_text(bindings@.take(i as int)),
        decreases bindings.len() - i,
    {
        assert(bindings@.take(i + 1).drop_last() =~= bindings@.take(i as int));
        text.append(header_line(&bindings[i]).as_str());
        i += 1;
    }
    assert(bindings@.take(bindings.len() as int) =~= bindings@);
    text
}

/// The body: the message as JSON where the method carries one, else empty (a multipart body
/// travels as parts).
pub open spec fn body_build_text(shape: HttpShape) -> Seq<char> {
    if shape.body_kind != BodyKind::Multipart && carries_body(shape.method) {
        "      const body = JSON.stringify(sending);\n"@
    } else {
        "      const body = \"\";\n"@
    }
}

pub fn body_build_stmt(shape: &HttpShape) -> (text: String)
    ensures
        text@ == body_build_text(*shape),
{
    if shape.body_kind != BodyKind::Multipart && shape.method.carries_a_body() {
        String::from_str("      const body = JSON.stringify(sending);\n")
    } else {
        String::from_str("      const body = \"\";\n")
    }
}

/// One text part per argument no placeholder binds, under its wire key; an optional one only
/// where it holds a value.
pub open spec fn field_parts_text(fields: Seq<InputField>, placeholders: Seq<Seq<char>>) -> Seq<char>
    decreases fields.len(),
{
    if fields.len() == 0 {
        Seq::empty()
    } else {
        let field = fields.last();
        let before = field_parts_text(fields.drop_last(), placeholders);
        let key = field.wire_key@;
        let field_key = camel_case(field.ident@);
        if placeholders.contains(field.ident@) {
            before
        } else if field.ty.optional {
            before + "      if (sending."@ + field_key + " !== undefined) {\n        parts.push([\""@ + key
                + "\", String(sending."@ + field_key + ")]);\n      }\n"@
        } else {
            before + "      parts.push([\""@ + key + "\", String(sending."@ + field_key + ")]);\n"@
        }
    }
}

/// One part per `part` binding, its argument passed through untouched.
pub open spec fn bound_parts_text(parts: Seq<HeaderBinding>) -> Seq<char>
    decreases parts.len(),
{
    if parts.len() == 0 {
        Seq::empty()
    } else {
        let part = parts.last();
        bound_parts_text(parts.drop_last()) + "      parts.push([\""@ + part.name@ + "\", "@ + camel_case(
            part.parameter@,
        ) + "]);\n"@
    }
}

/// The parts a method sends: nothing at all on a service with no multipart operation; an empty
/// list for any other body on a service with one; the arguments and the `part` bindings of a
/// multipart body.
pub open spec fn parts_build_text(operation: OperationDef, has_multipart: bool) -> Seq<char> {
    if !has_multipart {
        Seq::empty()
    } else if operation.http.body_kind != BodyKind::Multipart {
        "      const parts: Array<[string, unknown]> = [];\n"@
    } else {
        let fields = match operation.inputs {
            OperationInputs::Generated(fields) => field_parts_text(fields@, placeholder_names(operation.http.path@)),
            _ => Seq::empty(),
        };
        "      const parts: Array<[string, unknown]> = [];\n"@ + fields + bound_parts_text(operation.http.multipart_parts@)
    }
}

pub fn multipart_parts_build_stmt(operation: &OperationDef, has_multipart: bool) -> (text: String)
    ensures
        text@ == parts_build_text(*operation, has_multipart),
{
    if !has_multipart {
        return String::new();
    }
    if operation.http.body_kind != BodyKind::Multipart {
        return String::from_str("      const parts: Array<[string, unknown]> = [];\n");
    }
    let mut text = String::from_str("      const parts: Array<[string, unknown]> = [];\n");
    if let OperationInputs::Generated(fields) = &operation.inputs {
        let placeholders = operation.http.placeholder_names();
        let ghost head = text@;
        let mut i: usize = 0;
        while i < fields.len()
            invariant
                0 <= i <= fields.len(),
                text@ == head + field_parts_text(fields@.take(i as int), views(placeholders@)),
            decreases fields.len() - i,
        {
            assert(fields@.take(i + 1).drop_last() =~= fields@.take(i as int));
            let field = &fields[i];
            if !contains_name(&placeholders, field.ident.as_str()) {
                let key = field.wire_key.as_str();
                let field_key = camel_case_of_field(field.ident.as_str());
                if field.ty.optional {
                    text.append("      if (sending.");
                    text.append(field_key.as_str());
                    text.append(" !== undefined) {\n        parts.push([\"");
                    text.append(key);
                    text.append("\", String(sending.");
                    text.append(field_key.as_str());
                    text.append(")]);\n      }\n");
                } else {
                    text.append("      parts.push([\"");
                    text.append(key);
                    text.append("\", String(sending.");
                    text.append(field_key.as_str());
                    text.append(")]);\n");
                }
            }
            i += 1;
        }
        assert(fields@.take(fields.len() as int) =~= fields@);
    }
    let parts = &operation.http.multipart_parts;
    let ghost head = text@;
    let mut j: usize = 0;
    while j < parts.len()
        invariant
            0 <= j <= parts.len(),
            parts == &operation.http.multipart_parts,
            text@ == head + bound_parts_text(parts@.take(j as int)),
        decreases parts.len() - j,
    {
        assert(parts@.take(j + 1).drop_last() =~= parts@.take(j as int));
        let part = &parts[j];
        text.append("      parts.push([\"");
        text.append(part.name.as_str());
        text.append("\", ");
        text.append(camel_case_of_field(part.parameter.as_str()).as_str());
        text.append("]);\n");
        j += 1;
    }
    assert(parts@.take(parts.len() as int) =~= parts@);
    text
}

} // verus!

//! The decisions of rendering in a browser: which renderer a diagram type
//! uses, the script that runs it, and how its result is judged.
use vstd::prelude::*;
use crate::diagrams::registry::BrowserDiagram;
use crate::diagrams::{DiagramError, DiagramResult};
use crate::text::{concat3, owned, str_eq};
use crate::trusted::{json_quoted, json_string};
use vstd::string::*;

verus! {

broadcast use vstd::string::group_string_axioms;

/// The browser renderer of a diagram type: `mermaid` and `bpmn` have one;
/// any other type is an unsupported format for that type.
pub fn browser_diagram(diagram_type: &str, format: &str) -> (r: DiagramResult<BrowserDiagram>)
    ensures
        diagram_type@ == "mermaid"@ ==> r matches Ok(BrowserDiagram::Mermaid),
        diagram_type@ == "bpmn"@ ==> r matches Ok(BrowserDiagram::Bpmn),
        diagram_type@ != "mermaid"@ && diagram_type@ != "bpmn"@ ==> (r matches Err(
            DiagramError::UnsupportedFormat { format: f, provider: p },
        ) && f@ == format@ && p@ == diagram_type@),
{
    proof {
        reveal_strlit("mermaid");
        reveal_strlit("bpmn");
        assert("mermaid"@.len() != "bpmn"@.len());
    }
    if str_eq(diagram_type, "mermaid") {
        Ok(BrowserDiagram::Mermaid)
    } else if str_eq(diagram_type, "bpmn") {
        Ok(BrowserDiagram::Bpmn)
    } else {
        Err(DiagramError::UnsupportedFormat { format: owned(format), provider: owned(diagram_type) })
    }
}

/// The name of a renderer's entry point in the page.
pub open spec fn render_function(d: BrowserDiagram) -> Seq<char> {
    match d {
        BrowserDiagram::Mermaid => "window.kroki.renderMermaid("@,
        BrowserDiagram::Bpmn => "window.kroki.renderBpmn("@,
    }
}

/// The script that renders `source`: the renderer's entry point called with
/// the source as a JSON string.
pub fn render_script(d: BrowserDiagram, source: &str) -> (s: String)
    ensures
        s@ == render_function(d) + json_quoted(source@) + ")"@,
{
    let quoted = json_string(source);
    let head = match d {
        BrowserDiagram::Mermaid => "window.kroki.renderMermaid(",
        BrowserDiagram::Bpmn => "window.kroki.renderBpmn(",
    };
    concat3(head, quoted.as_str(), ")")
}

/// Judges what the renderer returned: a string, which must not be empty, is
/// the image's text; anything else is a failure.
pub fn render_output(value: Option<String>) -> (r: DiagramResult<Vec<u8>>)
    ensures
        value is None ==> (r matches Err(DiagramError::ProcessFailed(m)) && m@
            == "Render returned null or non-string"@),
        value matches Some(s) ==> (if s@.len() == 0 {
            r matches Err(DiagramError::ProcessFailed(m)) && m@ == "Render produced empty output"@
        } else {
            r matches Ok(b) && b@ == vstd::utf8::encode_utf8(s@)
        }),
{
    match value {
        None => Err(DiagramError::ProcessFailed(owned("Render returned null or non-string"))),
        Some(s) => {
            if s.as_str().is_empty() {
                Err(DiagramError::ProcessFailed(owned("Render produced empty output")))
            } else {
                Ok(crate::diagrams::providers::text_bytes(s.as_str()))
            }
        },
    }
}

} // verus!

//! The diagram providers: for each, which formats it renders, how its tool is
//! invoked, and how the tool's output is judged.
use vstd::prelude::*;
use vstd::slice::slice_to_vec;
use vstd::string::*;
use crate::config::PluginConfig;
use crate::diagrams::{is_empty_source_error, validate_source, DiagramError, DiagramProvider, DiagramResult};
use crate::text::{
    clone_strings, str_eq, concat2, concat3, decimal, is_blank, owned, replace_all, spec_decimal,
    spec_replace, views,
};
use crate::trusted::{lossy_text, utf8_lossy};

verus! {

broadcast use vstd::string::group_string_axioms;

/// What a tool reads on its standard input.
#[derive(Debug, Clone)]
pub enum StdinMode {
    /// The parent's standard input is inherited.
    Inherit,
    /// Standard input is closed (null).
    Null,
    /// These bytes are written to a pipe.
    Piped(Vec<u8>),
}

/// How to run a tool.
#[derive(Debug, Clone)]
pub struct Invocation {
    /// The program to run.
    pub program: String,
    /// Its arguments, in order.
    pub args: Vec<String>,
    /// What it reads on standard input.
    pub stdin: StdinMode,
    /// The name of the tool in reports.
    pub tool: String,
    /// The configured time limit, if any.
    pub timeout_ms: Option<u64>,
    /// The size of the diagram source, for the adaptive time limit.
    pub source_len: usize,
}

/// What a finished tool run produced.
#[derive(Debug, Clone)]
pub struct ProcessOutput {
    /// Whether the tool exited successfully.
    pub success: bool,
    pub stdout: Vec<u8>,
    pub stderr: Vec<u8>,
}

/// The UTF-8 bytes of a text.
pub fn text_bytes(s: &str) -> (b: Vec<u8>)
    ensures
        b@ == s.spec_bytes(),
{
    slice_to_vec(s.as_bytes())
}

/// The common reading of a tool's output: a successful run must print
/// something, which is the image; a failed run is reported with its error
/// output.
pub open spec fn spec_stdout_or_error(
    out: ProcessOutput,
    empty_msg: Seq<char>,
    fail_prefix: Seq<char>,
) -> Result<Seq<u8>, Seq<char>> {
    if out.success {
        if out.stdout@.len() == 0 {
            Err(empty_msg)
        } else {
            Ok(out.stdout@)
        }
    } else {
        Err(fail_prefix + lossy_text(out.stderr@))
    }
}

/// Reads a tool's output as `spec_stdout_or_error` says; errors are
/// `ProcessFailed` with the given text.
pub fn stdout_or_error(out: ProcessOutput, empty_msg: &str, fail_prefix: &str) -> (r: DiagramResult<
    Vec<u8>,
>)
    ensures
        spec_stdout_or_error(out, empty_msg@, fail_prefix@) matches Ok(b) ==> (r matches Ok(v)
            && v@ == b),
        spec_stdout_or_error(out, empty_msg@, fail_prefix@) matches Err(m) ==> (r matches Err(
            DiagramError::ProcessFailed(e),
        ) && e@ == m),
{
    if out.success {
        if out.stdout.len() == 0 {
            Err(DiagramError::ProcessFailed(owned(empty_msg)))
        } else {
            Ok(out.stdout)
        }
    } else {
        let stderr = utf8_lossy(&out.stderr);
        Err(DiagramError::ProcessFailed(concat2(fail_prefix, stderr.as_str())))
    }
}

/// Renders Graphviz sources with `dot`.
#[derive(Debug, Clone)]
pub struct CommandProvider {
    pub bin_path: String,
    pub timeout_ms: Option<u64>,
}

impl CommandProvider {
    pub fn new(bin_path: String, timeout_ms: Option<u64>) -> (p: Self)
        ensures
            p.bin_path == bin_path,
            p.timeout_ms == timeout_ms,
    {
        CommandProvider { bin_path, timeout_ms }
    }

    /// `dot -T<format>`, reading the source on standard input.
    pub fn invocation(&self, source: &str, format: &str) -> (inv: Invocation)
        ensures
            inv.program@ == self.bin_path@,
            inv.args@.len() == 1,
            inv.args@[0]@ == "-T"@ + format@,
            inv.stdin matches StdinMode::Piped(b) && b@ == source.spec_bytes(),
            inv.tool@ == "dot"@,
            inv.timeout_ms == self.timeout_ms,
            inv.source_len == source.spec_bytes().len(),
    {
        let mut args: Vec<String> = Vec::new();
        args.push(concat2("-T", format));
        let bytes = text_bytes(source);
        let len = bytes.len();
        Invocation {
            program: self.bin_path.clone(),
            args,
            stdin: StdinMode::Piped(bytes),
            tool: owned("dot"),
            timeout_ms: self.timeout_ms,
            source_len: len,
        }
    }

    /// The image, or why the run failed.
    pub fn finish(&self, out: ProcessOutput) -> (r: DiagramResult<Vec<u8>>)
        ensures
            spec_stdout_or_error(
                out,
                "Command succeeded but returned empty output"@,
                "Command failed: "@,
            ) matches Ok(b) ==> (r matches Ok(v) && v@ == b),
            spec_stdout_or_error(
                out,
                "Command succeeded but returned empty output"@,
                "Command failed: "@,
            ) matches Err(m) ==> (r matches Err(DiagramError::ProcessFailed(e)) && e@ == m),
    {
        stdout_or_error(out, "Command succeeded but returned empty output", "Command failed: ")
    }
}


/// An invocation that pipes `source` to a program run with `args`.
pub open spec fn pipes_source(inv: Invocation, source: &str) -> bool {
    &&& inv.stdin matches StdinMode::Piped(b) && b@ == source.spec_bytes()
    &&& inv.source_len == source.spec_bytes().len()
}

/// Builds an invocation that pipes `source` to `program`.
fn piped_invocation(
    program: &String,
    args: Vec<String>,
    source: &str,
    tool: &str,
    timeout_ms: Option<u64>,
) -> (inv: Invocation)
    ensures
        inv.program == *program,
        inv.args == args,
        pipes_source(inv, source),
        inv.tool@ == tool@,
        inv.timeout_ms == timeout_ms,
{
    let bytes = text_bytes(source);
    let len = bytes.len();
    Invocation {
        program: program.clone(),
        args,
        stdin: StdinMode::Piped(bytes),
        tool: owned(tool),
        timeout_ms,
        source_len: len,
    }
}

/// Renders Vega specifications to SVG with `vg2svg`.
#[derive(Debug, Clone)]
pub struct VegaProvider {
    pub bin_path: String,
    pub timeout_ms: Option<u64>,
}

impl VegaProvider {
    pub fn new(bin_path: String, timeout_ms: Option<u64>) -> (p: Self)
        ensures
            p.bin_path == bin_path,
            p.timeout_ms == timeout_ms,
    {
        VegaProvider { bin_path, timeout_ms }
    }

    /// `vg2svg` reading the source on standard input; only SVG is supported.
    pub fn invocation(&self, source: &str, format: &str) -> (r: DiagramResult<Invocation>)
        ensures
            format@ != "svg"@ ==> (r matches Err(DiagramError::ProcessFailed(m)) && m@
                == "Vega support currently limited to SVG format, got '"@ + format@ + "'"@),
            format@ == "svg"@ ==> (r matches Ok(inv) && inv.program == self.bin_path
                && inv.args@.len() == 0 && pipes_source(inv, source) && inv.tool@ == "vg2svg"@
                && inv.timeout_ms == self.timeout_ms),
    {
        if !str_eq(format, "svg") {
            return Err(
                DiagramError::ProcessFailed(
                    concat3("Vega support currently limited to SVG format, got '", format, "'"),
                ),
            );
        }
        Ok(piped_invocation(&self.bin_path, Vec::new(), source, "vg2svg", self.timeout_ms))
    }

    /// The image, or why the run failed.
    pub fn finish(&self, out: ProcessOutput) -> (r: DiagramResult<Vec<u8>>)
        ensures
            spec_stdout_or_error(
                out,
                "Vega conversion succeeded but output is empty"@,
                "Vega conversion failed: "@,
            ) matches Ok(b) ==> (r matches Ok(v) && v@ == b),
            spec_stdout_or_error(
                out,
                "Vega conversion succeeded but output is empty"@,
                "Vega conversion failed: "@,
            ) matches Err(m) ==> (r matches Err(DiagramError::ProcessFailed(e)) && e@ == m),
    {
        stdout_or_error(
            out,
            "Vega conversion succeeded but output is empty",
            "Vega conversion failed: ",
        )
    }
}

/// Renders Vega-Lite specifications in two stages: `vl2vg` to a Vega
/// specification, then `vg2svg` to SVG.
#[derive(Debug, Clone)]
pub struct VegaLiteProvider {
    /// The `vl2vg` program.
    pub vl_bin_path: String,
    /// The `vg2svg` program.
    pub vg_bin_path: String,
    pub timeout_ms: Option<u64>,
}

impl VegaLiteProvider {
    pub fn new(vl_bin_path: String, vg_bin_path: String, timeout_ms: Option<u64>) -> (p: Self)
        ensures
            p.vl_bin_path == vl_bin_path,
            p.vg_bin_path == vg_bin_path,
            p.timeout_ms == timeout_ms,
    {
        VegaLiteProvider { vl_bin_path, vg_bin_path, timeout_ms }
    }

    /// Stage 1: `vl2vg` reading the source on standard input; only SVG is
    /// supported.
    pub fn first_stage(&self, source: &str, format: &str) -> (r: DiagramResult<Invocation>)
        ensures
            format@ != "svg"@ ==> (r matches Err(DiagramError::ProcessFailed(m)) && m@
                == "Vega-Lite support currently limited to SVG"@),
            format@ == "svg"@ ==> (r matches Ok(inv) && inv.program == self.vl_bin_path
                && inv.args@.len() == 0 && pipes_source(inv, source) && inv.tool@ == "vl2vg"@
                && inv.timeout_ms == self.timeout_ms),
    {
        if !str_eq(format, "svg") {
            return Err(DiagramError::ProcessFailed(owned("Vega-Lite support currently limited to SVG")));
        }
        Ok(piped_invocation(&self.vl_bin_path, Vec::new(), source, "vl2vg", self.timeout_ms))
    }

    /// Stage 2: `vg2svg` reading what stage 1 printed, if stage 1 succeeded.
    pub fn second_stage(&self, first: ProcessOutput) -> (r: DiagramResult<Invocation>)
        ensures
            !first.success ==> (r matches Err(DiagramError::ProcessFailed(m)) && m@
                == "vl2vg (stage 1) failed: "@ + lossy_text(first.stderr@)),
            first.success ==> (r matches Ok(inv) && inv.program == self.vg_bin_path
                && inv.args@.len() == 0 && inv.stdin == StdinMode::Piped(first.stdout)
                && inv.source_len == first.stdout@.len() && inv.tool@ == "vg2svg"@
                && inv.timeout_ms == self.timeout_ms),
    {
        if !first.success {
            let stderr = utf8_lossy(&first.stderr);
            return Err(DiagramError::ProcessFailed(concat2("vl2vg (stage 1) failed: ", stderr.as_str())));
        }
        let len = first.stdout.len();
        Ok(Invocation {
            program: self.vg_bin_path.clone(),
            args: Vec::new(),
            stdin: StdinMode::Piped(first.stdout),
            tool: owned("vg2svg"),
            timeout_ms: self.timeout_ms,
            source_len: len,
        })
    }

    /// The image, or why stage 2 failed; `vega_len` is the size of the Vega
    /// specification that stage 1 produced.
    pub fn finish(&self, vega_len: usize, out: ProcessOutput) -> (r: DiagramResult<Vec<u8>>)
        ensures
            spec_stdout_or_error(
                out,
                "vg2svg (stage 2) succeeded but output is empty (vl2vg produced "@ + spec_decimal(
                    vega_len as nat,
                ) + " bytes)"@,
                "vg2svg (stage 2) failed (vl2vg produced "@ + spec_decimal(vega_len as nat)
                    + " bytes): "@,
            ) matches Ok(b) ==> (r matches Ok(v) && v@ == b),
            spec_stdout_or_error(
                out,
                "vg2svg (stage 2) succeeded but output is empty (vl2vg produced "@ + spec_decimal(
                    vega_len as nat,
                ) + " bytes)"@,
                "vg2svg (stage 2) failed (vl2vg produced "@ + spec_decimal(vega_len as nat)
                    + " bytes): "@,
            ) matches Err(m) ==> (r matches Err(DiagramError::ProcessFailed(e)) && e@ == m),
    {
        let n = decimal(vega_len as u64);
        let empty_msg = concat3(
            "vg2svg (stage 2) succeeded but output is empty (vl2vg produced ",
            n.as_str(),
            " bytes)",
        );
        let fail_prefix = concat3("vg2svg (stage 2) failed (vl2vg produced ", n.as_str(), " bytes): ");
        stdout_or_error(out, empty_msg.as_str(), fail_prefix.as_str())
    }
}

/// Renders D2 diagrams with `d2`.
#[derive(Debug, Clone)]
pub struct D2Provider {
    pub bin_path: String,
    pub timeout_ms: Option<u64>,
}

impl D2Provider {
    pub fn new(bin_path: String, timeout_ms: Option<u64>) -> (p: Self)
        ensures
            p.bin_path == bin_path,
            p.timeout_ms == timeout_ms,
    {
        D2Provider { bin_path, timeout_ms }
    }

    /// `d2 --layout=dagre --stdout-format <format> - -`, reading the source on
    /// standard input; SVG, PNG and PDF are supported.
    pub fn invocation(&self, source: &str, format: &str) -> (r: DiagramResult<Invocation>)
        ensures
            !(format@ == "svg"@ || format@ == "png"@ || format@ == "pdf"@) ==> (r matches Err(
                DiagramError::UnsupportedFormat { format: f, provider: p },
            ) && f@ == format@ && p@ == "D2"@),
            (format@ == "svg"@ || format@ == "png"@ || format@ == "pdf"@) ==> (r matches Ok(inv)
                && inv.program == self.bin_path && views(inv.args@) == seq![
                "--layout=dagre"@,
                "--stdout-format"@,
                format@,
                "-"@,
                "-"@,
            ] && pipes_source(inv, source) && inv.tool@ == "d2"@ && inv.timeout_ms
                == self.timeout_ms),
    {
        if !(str_eq(format, "svg") || str_eq(format, "png") || str_eq(format, "pdf")) {
            return Err(
                DiagramError::UnsupportedFormat { format: owned(format), provider: owned("D2") },
            );
        }
        let mut args: Vec<String> = Vec::new();
        args.push(owned("--layout=dagre"));
        args.push(owned("--stdout-format"));
        args.push(owned(format));
        args.push(owned("-"));
        args.push(owned("-"));
        assert(views(args@) =~= seq!["--layout=dagre"@, "--stdout-format"@, format@, "-"@, "-"@]);
        Ok(piped_invocation(&self.bin_path, args, source, "d2", self.timeout_ms))
    }

    /// The image, or why the run failed.
    pub fn finish(&self, out: ProcessOutput) -> (r: DiagramResult<Vec<u8>>)
        ensures
            spec_stdout_or_error(
                out,
                "D2 conversion succeeded but output is empty"@,
                "D2 conversion failed: "@,
            ) matches Ok(b) ==> (r matches Ok(v) && v@ == b),
            spec_stdout_or_error(
                out,
                "D2 conversion succeeded but output is empty"@,
                "D2 conversion failed: "@,
            ) matches Err(m) ==> (r matches Err(DiagramError::ProcessFailed(e)) && e@ == m),
    {
        stdout_or_error(out, "D2 conversion succeeded but output is empty", "D2 conversion failed: ")
    }
}


/// The suffix of a temporary output file for `format`: a dot and the format.
pub fn output_suffix(format: &str) -> (s: String)
    ensures
        s@ == "."@ + format@,
{
    concat2(".", format)
}

/// Why a tool that writes its image to a file failed, if it did.
pub open spec fn spec_run_check(out: ProcessOutput, fail_prefix: Seq<char>) -> Option<Seq<char>> {
    if out.success {
        None
    } else {
        Some(fail_prefix + lossy_text(out.stderr@))
    }
}

/// A tool that writes its image to a file is judged by its exit status alone:
/// a run that exits successfully passes, whatever it wrote to its error
/// output, and a failed run is reported as the prefix followed by its error
/// output.
pub proof fn law_run_check_by_exit_status(out: ProcessOutput, fail_prefix: Seq<char>)
    ensures
        out.success ==> spec_run_check(out, fail_prefix) is None,
        !out.success ==> spec_run_check(out, fail_prefix) == Some(fail_prefix + lossy_text(out.stderr@)),
{
}

/// Renders ASCII-art diagrams to PNG with `ditaa`, from and to temporary files.
#[derive(Debug, Clone)]
pub struct DitaaProvider {
    pub bin_path: String,
    pub timeout_ms: Option<u64>,
}

impl DitaaProvider {
    pub fn new(bin_path: String, timeout_ms: Option<u64>) -> (p: Self)
        ensures
            p.bin_path == bin_path,
            p.timeout_ms == timeout_ms,
    {
        DitaaProvider { bin_path, timeout_ms }
    }

    /// Only PNG is supported.
    pub fn check_format(&self, format: &str) -> (r: DiagramResult<()>)
        ensures
            format@ == "png"@ ==> r is Ok,
            format@ != "png"@ ==> (r matches Err(
                DiagramError::UnsupportedFormat { format: f, provider: p },
            ) && f@ == format@ && p@ == "Ditaa"@),
    {
        if !str_eq(format, "png") {
            return Err(
                DiagramError::UnsupportedFormat { format: owned(format), provider: owned("Ditaa") },
            );
        }
        Ok(())
    }

    /// Whether the configured binary is a JAR archive, given its first two bytes
    /// when the file has them: a JAR starts with `PK`.
    pub fn is_jar(head: Option<(u8, u8)>) -> (b: bool)
        ensures
            b == (head == Some((0x50u8, 0x4Bu8))),
    {
        match head {
            Some((a, b)) => a == 0x50 && b == 0x4B,
            None => false,
        }
    }

    /// `ditaa <input> <output>`, or `java -Djava.awt.headless=true -jar <jar>
    /// <input> <output>` when the binary is a JAR archive.
    pub fn invocation(&self, input_path: &str, output_path: &str, is_jar: bool, source_len: usize) -> (inv: Invocation)
        ensures
            is_jar ==> inv.program@ == "java"@ && views(inv.args@) == seq![
                "-Djava.awt.headless=true"@,
                "-jar"@,
                self.bin_path@,
                input_path@,
                output_path@,
            ],
            !is_jar ==> inv.program == self.bin_path && views(inv.args@) == seq![
                input_path@,
                output_path@,
            ],
            inv.stdin == StdinMode::Inherit,
            inv.tool@ == "ditaa"@,
            inv.timeout_ms == self.timeout_ms,
            inv.source_len == source_len,
    {
        let mut args: Vec<String> = Vec::new();
        let program = if is_jar {
            args.push(owned("-Djava.awt.headless=true"));
            args.push(owned("-jar"));
            args.push(self.bin_path.clone());
            owned("java")
        } else {
            self.bin_path.clone()
        };
        args.push(owned(input_path));
        args.push(owned(output_path));
        proof {
            if is_jar {
                assert(views(args@) =~= seq![
                    "-Djava.awt.headless=true"@,
                    "-jar"@,
                    self.bin_path@,
                    input_path@,
                    output_path@,
                ]);
            } else {
                assert(views(args@) =~= seq![input_path@, output_path@]);
            }
        }
        Invocation {
            program,
            args,
            stdin: StdinMode::Inherit,
            tool: owned("ditaa"),
            timeout_ms: self.timeout_ms,
            source_len,
        }
    }

    /// A failed run is reported with both of its output streams.
    pub fn check_run(&self, out: &ProcessOutput) -> (r: DiagramResult<()>)
        ensures
            out.success ==> r is Ok,
            !out.success ==> (r matches Err(DiagramError::ProcessFailed(m)) && m@
                == "Ditaa conversion failed. stderr: "@ + lossy_text(out.stderr@) + ", stdout: "@
                + lossy_text(out.stdout@)),
    {
        if !out.success {
            let stderr = utf8_lossy(&out.stderr);
            let stdout = utf8_lossy(&out.stdout);
            let mut m = concat3("Ditaa conversion failed. stderr: ", stderr.as_str(), ", stdout: ");
            m.append(stdout.as_str());
            return Err(DiagramError::ProcessFailed(m));
        }
        Ok(())
    }
}

/// Renders Excalidraw scenes to SVG with `excalidraw-to-svg`, from a
/// temporary file.
#[derive(Debug, Clone)]
pub struct ExcalidrawProvider {
    pub bin_path: String,
    pub timeout_ms: Option<u64>,
}

impl ExcalidrawProvider {
    pub fn new(bin_path: String, timeout_ms: Option<u64>) -> (p: Self)
        ensures
            p.bin_path == bin_path,
            p.timeout_ms == timeout_ms,
    {
        ExcalidrawProvider { bin_path, timeout_ms }
    }

    /// Only SVG is supported.
    pub fn check_format(&self, format: &str) -> (r: DiagramResult<()>)
        ensures
            format@ == "svg"@ ==> r is Ok,
            format@ != "svg"@ ==> (r matches Err(
                DiagramError::UnsupportedFormat { format: f, provider: p },
            ) && f@ == format@ && p@ == "Excalidraw"@),
    {
        if !str_eq(format, "svg") {
            return Err(
                DiagramError::UnsupportedFormat {
                    format: owned(format),
                    provider: owned("Excalidraw"),
                },
            );
        }
        Ok(())
    }

    /// `excalidraw-to-svg <input>`.
    pub fn invocation(&self, input_path: &str, source_len: usize) -> (inv: Invocation)
        ensures
            inv.program == self.bin_path,
            views(inv.args@) == seq![input_path@],
            inv.stdin == StdinMode::Inherit,
            inv.tool@ == "excalidraw-to-svg"@,
            inv.timeout_ms == self.timeout_ms,
            inv.source_len == source_len,
    {
        let mut args: Vec<String> = Vec::new();
        args.push(owned(input_path));
        assert(views(args@) =~= seq![input_path@]);
        Invocation {
            program: self.bin_path.clone(),
            args,
            stdin: StdinMode::Inherit,
            tool: owned("excalidraw-to-svg"),
            timeout_ms: self.timeout_ms,
            source_len,
        }
    }

    /// The image, or why the run failed.
    pub fn finish(&self, out: ProcessOutput) -> (r: DiagramResult<Vec<u8>>)
        ensures
            spec_stdout_or_error(
                out,
                "Excalidraw conversion succeeded but output is empty"@,
                "Excalidraw conversion failed: "@,
            ) matches Ok(b) ==> (r matches Ok(v) && v@ == b),
            spec_stdout_or_error(
                out,
                "Excalidraw conversion succeeded but output is empty"@,
                "Excalidraw conversion failed: "@,
            ) matches Err(m) ==> (r matches Err(DiagramError::ProcessFailed(e)) && e@ == m),
    {
        stdout_or_error(
            out,
            "Excalidraw conversion succeeded but output is empty",
            "Excalidraw conversion failed: ",
        )
    }
}

/// Renders WaveDrom timing diagrams with `wavedrom-cli`, from and to temporary
/// files.
#[derive(Debug, Clone)]
pub struct WavedromProvider {
    pub bin_path: String,
    pub timeout_ms: Option<u64>,
}

impl WavedromProvider {
    pub fn new(bin_path: String, timeout_ms: Option<u64>) -> (p: Self)
        ensures
            p.bin_path == bin_path,
            p.timeout_ms == timeout_ms,
    {
        WavedromProvider { bin_path, timeout_ms }
    }

    /// `wavedrom-cli -i <input> -s <output>` for SVG, `-p <output>` for PNG;
    /// other formats are not supported.
    pub fn invocation(&self, input_path: &str, output_path: &str, format: &str, source_len: usize) -> (r: DiagramResult<Invocation>)
        ensures
            !(format@ == "svg"@ || format@ == "png"@) ==> (r matches Err(
                DiagramError::UnsupportedFormat { format: f, provider: p },
            ) && f@ == format@ && p@ == "Wavedrom"@),
            (format@ == "svg"@ || format@ == "png"@) ==> (r matches Ok(inv) && inv.program
                == self.bin_path && views(inv.args@) == seq![
                "-i"@,
                input_path@,
                if format@ == "svg"@ {
                    "-s"@
                } else {
                    "-p"@
                },
                output_path@,
            ] && inv.stdin == StdinMode::Inherit && inv.tool@ == "wavedrom-cli"@
                && inv.timeout_ms == self.timeout_ms && inv.source_len == source_len),
    {
        let flag = if str_eq(format, "svg") {
            "-s"
        } else if str_eq(format, "png") {
            "-p"
        } else {
            return Err(
                DiagramError::UnsupportedFormat { format: owned(format), provider: owned("Wavedrom") },
            );
        };
        let mut args: Vec<String> = Vec::new();
        args.push(owned("-i"));
        args.push(owned(input_path));
        args.push(owned(flag));
        args.push(owned(output_path));
        assert(views(args@) =~= seq!["-i"@, input_path@, flag@, output_path@]);
        Ok(Invocation {
            program: self.bin_path.clone(),
            args,
            stdin: StdinMode::Inherit,
            tool: owned("wavedrom-cli"),
            timeout_ms: self.timeout_ms,
            source_len,
        })
    }

    /// A failed run is reported with its error output.
    pub fn check_run(&self, out: &ProcessOutput) -> (r: DiagramResult<()>)
        ensures
            out.success ==> r is Ok,
            !out.success ==> (r matches Err(DiagramError::ProcessFailed(e)) && e@ == "Wavedrom conversion failed: "@
                + lossy_text(out.stderr@)),
            spec_run_check(*out, "Wavedrom conversion failed: "@) is None ==> r is Ok,
            spec_run_check(*out, "Wavedrom conversion failed: "@) matches Some(m) ==> (r matches Err(
                DiagramError::ProcessFailed(e),
            ) && e@ == m),
    {
        if !out.success {
            let stderr = utf8_lossy(&out.stderr);
            return Err(DiagramError::ProcessFailed(concat2("Wavedrom conversion failed: ", stderr.as_str())));
        }
        Ok(())
    }
}

/// Renders BPMN diagrams with `bpmn-to-image`, from and to temporary files.
#[derive(Debug, Clone)]
pub struct BpmnProvider {
    pub bin_path: String,
    pub timeout_ms: Option<u64>,
}

impl BpmnProvider {
    pub fn new(bin_path: String, timeout_ms: Option<u64>) -> (p: Self)
        ensures
            p.bin_path == bin_path,
            p.timeout_ms == timeout_ms,
    {
        BpmnProvider { bin_path, timeout_ms }
    }

    /// `bpmn-to-image <input>:<output>`.
    pub fn invocation(&self, input_path: &str, output_path: &str, source_len: usize) -> (inv: Invocation)
        ensures
            inv.program == self.bin_path,
            views(inv.args@) == seq![input_path@ + ":"@ + output_path@],
            inv.stdin == StdinMode::Inherit,
            inv.tool@ == "bpmn-to-image"@,
            inv.timeout_ms == self.timeout_ms,
            inv.source_len == source_len,
    {
        let mut args: Vec<String> = Vec::new();
        args.push(concat3(input_path, ":", output_path));
        assert(views(args@) =~= seq![input_path@ + ":"@ + output_path@]);
        Invocation {
            program: self.bin_path.clone(),
            args,
            stdin: StdinMode::Inherit,
            tool: owned("bpmn-to-image"),
            timeout_ms: self.timeout_ms,
            source_len,
        }
    }

    /// A failed run is reported with its error output.
    pub fn check_run(&self, out: &ProcessOutput) -> (r: DiagramResult<()>)
        ensures
            out.success ==> r is Ok,
            !out.success ==> (r matches Err(DiagramError::ProcessFailed(e)) && e@ == "BPMN conversion failed: "@
                + lossy_text(out.stderr@)),
            spec_run_check(*out, "BPMN conversion failed: "@) is None ==> r is Ok,
            spec_run_check(*out, "BPMN conversion failed: "@) matches Some(m) ==> (r matches Err(
                DiagramError::ProcessFailed(e),
            ) && e@ == m),
    {
        if !out.success {
            let stderr = utf8_lossy(&out.stderr);
            return Err(DiagramError::ProcessFailed(concat2("BPMN conversion failed: ", stderr.as_str())));
        }
        Ok(())
    }

    /// The image read back from the output file, which must not be empty.
    pub fn check_image(&self, image: Vec<u8>) -> (r: DiagramResult<Vec<u8>>)
        ensures
            image@.len() == 0 ==> (r matches Err(DiagramError::ProcessFailed(m)) && m@
                == "BPMN conversion succeeded but output file is empty"@),
            image@.len() > 0 ==> r == Ok::<Vec<u8>, DiagramError>(image),
    {
        if image.len() == 0 {
            return Err(DiagramError::ProcessFailed(owned("BPMN conversion succeeded but output file is empty")));
        }
        Ok(image)
    }
}

/// A diagram provider that executes an external plugin via a subprocess protocol.
///
/// It communicates with the plugin using stdin (optional) and captures stdout
/// for the rendered diagram. It supports argument templating for formats.
#[derive(Debug, Clone)]
pub struct PluginProvider {
    /// Human-readable name of the plugin (e.g. "mytool").
    pub name: String,
    /// Path to the executable binary.
    pub command: String,
    /// Arguments passed to the binary. Supports `{format}` substitution.
    pub args: Vec<String>,
    /// Whether to pipe the diagram source to the binary's stdin.
    pub stdin: bool,
    /// Maximum time allowed for the plugin to run.
    pub timeout_ms: u64,
}

/// The plugin time limit when none is configured.
pub const DEFAULT_PLUGIN_TIMEOUT_MS: u64 = 5000;

impl PluginProvider {
    /// Whether this provider is the one a plugin configuration describes.
    pub open spec fn made_from(self, config: PluginConfig) -> bool {
        &&& self.name == config.name
        &&& self.command == config.command
        &&& self.args@ == config.args@
        &&& self.stdin == config.stdin
        &&& self.timeout_ms == match config.timeout_ms {
            Some(t) => t,
            None => 5000,
        }
    }

    /// Creates a new plugin provider from the given configuration; the timeout
    /// defaults to 5000 ms.
    pub fn new(config: &PluginConfig) -> (p: Self)
        ensures
            p.made_from(*config),
    {
        PluginProvider {
            name: config.name.clone(),
            command: config.command.clone(),
            args: clone_strings(&config.args),
            stdin: config.stdin,
            timeout_ms: match config.timeout_ms {
                Some(t) => t,
                None => DEFAULT_PLUGIN_TIMEOUT_MS,
            },
        }
    }

    /// Runs the plugin command with every `{format}` in its arguments replaced by
    /// the requested format; the source is piped to it when it reads standard
    /// input, and its standard input is closed otherwise.
    pub fn invocation(&self, source: &str, format: &str) -> (inv: Invocation)
        ensures
            inv.program == self.command,
            inv.args@.len() == self.args@.len(),
            forall|i: int|
                0 <= i < self.args@.len() ==> #[trigger] inv.args@[i]@ == spec_replace(
                    self.args@[i]@,
                    "{format}"@,
                    format@,
                ),
            self.stdin ==> pipes_source(inv, source),
            !self.stdin ==> inv.stdin == StdinMode::Null && inv.source_len
                == source.spec_bytes().len(),
            inv.tool == self.name,
            inv.timeout_ms == Some(self.timeout_ms),
    {
        proof {
            reveal_strlit("{format}");
        }
        let mut args: Vec<String> = Vec::new();
        let mut i: usize = 0;
        while i < self.args.len()
            invariant
                i <= self.args.len(),
                "{format}"@.len() > 0,
                args@.len() == i,
                forall|k: int|
                    0 <= k < i ==> #[trigger] args@[k]@ == spec_replace(
                        self.args@[k]@,
                        "{format}"@,
                        format@,
                    ),
            decreases self.args.len() - i,
        {
            args.push(replace_all(self.args[i].as_str(), "{format}", format));
            i = i + 1;
        }
        let bytes = text_bytes(source);
        let len = bytes.len();
        let stdin = if self.stdin {
            StdinMode::Piped(bytes)
        } else {
            StdinMode::Null
        };
        Invocation {
            program: self.command.clone(),
            args,
            stdin,
            tool: self.name.clone(),
            timeout_ms: Some(self.timeout_ms),
            source_len: len,
        }
    }

    /// The image, or why the run failed.
    pub fn finish(&self, out: ProcessOutput) -> (r: DiagramResult<Vec<u8>>)
        ensures
            spec_stdout_or_error(
                out,
                "Plugin '"@ + self.name@ + "' succeeded but returned empty output"@,
                "Plugin '"@ + self.name@ + "' failed: "@,
            ) matches Ok(b) ==> (r matches Ok(v) && v@ == b),
            spec_stdout_or_error(
                out,
                "Plugin '"@ + self.name@ + "' succeeded but returned empty output"@,
                "Plugin '"@ + self.name@ + "' failed: "@,
            ) matches Err(m) ==> (r matches Err(DiagramError::ProcessFailed(e)) && e@ == m),
    {
        let empty_msg = concat3("Plugin '", self.name.as_str(), "' succeeded but returned empty output");
        let fail_prefix = concat3("Plugin '", self.name.as_str(), "' failed: ");
        stdout_or_error(out, empty_msg.as_str(), fail_prefix.as_str())
    }
}

impl DiagramProvider for CommandProvider {
    /// Rejects a blank source.
    fn validate(&self, source: &str) -> (r: DiagramResult<()>)
        ensures
            r is Ok <==> !is_blank(source@),
            r matches Err(e) ==> is_empty_source_error(e),
    {
        validate_source(source)
    }
}

impl DiagramProvider for VegaProvider {
    /// Rejects a blank source.
    fn validate(&self, source: &str) -> (r: DiagramResult<()>)
        ensures
            r is Ok <==> !is_blank(source@),
            r matches Err(e) ==> is_empty_source_error(e),
    {
        validate_source(source)
    }
}

impl DiagramProvider for VegaLiteProvider {
    /// Rejects a blank source.
    fn validate(&self, source: &str) -> (r: DiagramResult<()>)
        ensures
            r is Ok <==> !is_blank(source@),
            r matches Err(e) ==> is_empty_source_error(e),
    {
        validate_source(source)
    }
}

impl DiagramProvider for D2Provider {
    /// Rejects a blank source.
    fn validate(&self, source: &str) -> (r: DiagramResult<()>)
        ensures
            r is Ok <==> !is_blank(source@),
            r matches Err(e) ==> is_empty_source_error(e),
    {
        validate_source(source)
    }
}

impl DiagramProvider for DitaaProvider {
    /// Rejects a blank source.
    fn validate(&self, source: &str) -> (r: DiagramResult<()>)
        ensures
            r is Ok <==> !is_blank(source@),
            r matches Err(e) ==> is_empty_source_error(e),
    {
        validate_source(source)
    }
}

impl DiagramProvider for ExcalidrawProvider {
    /// Rejects a blank source.
    fn validate(&self, source: &str) -> (r: DiagramResult<()>)
        ensures
            r is Ok <==> !is_blank(source@),
            r matches Err(e) ==> is_empty_source_error(e),
    {
        validate_source(source)
    }
}

impl DiagramProvider for WavedromProvider {
    /// Rejects a blank source.
    fn validate(&self, source: &str) -> (r: DiagramResult<()>)
        ensures
            r is Ok <==> !is_blank(source@),
            r matches Err(e) ==> is_empty_source_error(e),
    {
        validate_source(source)
    }
}

impl DiagramProvider for PluginProvider {
    /// Rejects a blank source.
    fn validate(&self, source: &str) -> (r: DiagramResult<()>)
        ensures
            r is Ok <==> !is_blank(source@),
            r matches Err(e) ==> is_empty_source_error(e),
    {
        validate_source(source)
    }
}

impl DiagramProvider for BpmnProvider {
    /// Every source is accepted.
    fn validate(&self, source: &str) -> (r: DiagramResult<()>)
        ensures
            r is Ok,
    {
        Ok(())
    }
}

} // verus!

//! The capture provider: declares the screenshot and recording tools,
//! builds the capture file names and capture-tool geometry, and packs a
//! captured image — encoded through the outside base64 routine — into a
//! tool result.  The capture processes themselves run in the embedding
//! program.
use vstd::prelude::*;

use crate::json::{jv_of_pairs, lemma_jv_of_pairs, lookup, JsonV, JsonValue};
use crate::registry::{MCPContent, MCPToolResult, Resource, Tool, ToolArgs};
use crate::strutil::{dec_int, push_i64};

verus! {

/// The encoding of bytes under the standard base64 alphabet with
/// padding: a function of the bytes alone.
pub uninterp spec fn base64_of(bytes: Seq<u8>) -> Seq<char>;

/// Relies on base64::encode: the standard alphabet with padding, four
/// output characters for every started group of three input bytes.
#[verifier::external_body]
fn base64_encode(bytes: &Vec<u8>) -> (r: String)
    ensures
        r@ == base64_of(bytes@),
        r@.len() == 4 * ((bytes@.len() + 2) / 3),
{
    base64::encode(bytes)
}

/// Captures the screen and records it to files under one directory.
#[derive(Debug)]
pub struct ScreenCapturePlugin {
    pub capture_dir: String,
}

fn cap_schema(props: Vec<(String, JsonValue)>) -> (v: JsonValue)
    ensures
        v@ is Obj,
{
    let mut ps: Vec<(String, JsonValue)> = Vec::new();
    ps.push((String::from_str("type"), JsonValue::Str(String::from_str("object"))));
    ps.push((String::from_str("properties"), JsonValue::Obj(props)));
    JsonValue::Obj(ps)
}

fn cap_prop(ty: &str, desc: &str) -> (v: JsonValue)
    ensures
        v@ is Obj,
{
    let mut ps: Vec<(String, JsonValue)> = Vec::new();
    ps.push((String::from_str("type"), JsonValue::Str(ty.to_owned())));
    ps.push((String::from_str("description"), JsonValue::Str(desc.to_owned())));
    JsonValue::Obj(ps)
}

impl ScreenCapturePlugin {
    /// A provider writing under the stock capture directory.
    pub fn new() -> (r: ScreenCapturePlugin)
        ensures
            r.capture_dir@ == "/tmp/mcp-captures"@,
    {
        ScreenCapturePlugin { capture_dir: String::from_str("/tmp/mcp-captures") }
    }

    /// The same provider writing under the given directory.
    pub fn with_capture_dir(self, capture_dir: String) -> (r: ScreenCapturePlugin)
        ensures
            r.capture_dir@ == capture_dir@,
    {
        ScreenCapturePlugin { capture_dir }
    }

    /// This provider's name.
    pub fn name(&self) -> (r: &str)
        ensures
            r@ == "screen_capture"@,
    {
        "screen_capture"
    }

    /// The four capture tools, under their fixed names.
    pub fn tools(&self) -> (r: Vec<Tool>)
        ensures
            crate::registry::tool_names(r@) == seq![
                "capture_screenshot"@,
                "capture_window"@,
                "start_recording"@,
                "stop_recording"@,
            ],
            r@.len() == 4,
            r@[0]@.description == "Capture a screenshot of the current display"@,
            r@[1]@.description == "Capture a specific window"@,
            r@[2]@.description == "Start screen recording"@,
            r@[3]@.description == "Stop current screen recording"@,
            forall|i: int| 0 <= i < 4 ==> (#[trigger] r@[i]@.input_schema) is Obj,
    {
        let mut ts: Vec<Tool> = Vec::new();
        let mut p1: Vec<(String, JsonValue)> = Vec::new();
        p1.push((
            String::from_str("output"),
            cap_prop("string", "Output name (monitor) to capture, or 'all' for all outputs"),
        ));
        p1.push((String::from_str("region"), cap_prop("object", "Specific region to capture")));
        p1.push((String::from_str("format"), cap_prop("string", "Image format")));
        ts.push(
            Tool {
                name: String::from_str("capture_screenshot"),
                description: String::from_str("Capture a screenshot of the current display"),
                input_schema: cap_schema(p1),
            },
        );
        let mut p2: Vec<(String, JsonValue)> = Vec::new();
        p2.push((
            String::from_str("window_id"),
            cap_prop(
                "string",
                "Window ID to capture (optional, uses active window if not specified)",
            ),
        ));
        p2.push((String::from_str("format"), cap_prop("string", "Image format")));
        ts.push(
            Tool {
                name: String::from_str("capture_window"),
                description: String::from_str("Capture a specific window"),
                input_schema: cap_schema(p2),
            },
        );
        let mut p3: Vec<(String, JsonValue)> = Vec::new();
        p3.push((String::from_str("output"), cap_prop("string", "Output name to record")));
        p3.push((String::from_str("audio"), cap_prop("boolean", "Include audio in recording")));
        p3.push((String::from_str("format"), cap_prop("string", "Recording format")));
        ts.push(
            Tool {
                name: String::from_str("start_recording"),
                description: String::from_str("Start screen recording"),
                input_schema: cap_schema(p3),
            },
        );
        ts.push(
            Tool {
                name: String::from_str("stop_recording"),
                description: String::from_str("Stop current screen recording"),
                input_schema: cap_schema(Vec::new()),
            },
        );
        proof {
            assert(crate::registry::tool_names(ts@) =~= seq![
                "capture_screenshot"@,
                "capture_window"@,
                "start_recording"@,
                "stop_recording"@,
            ]);
        }
        ts
    }

    /// The two capture resources, under their fixed URIs.
    pub fn resources(&self) -> (r: Vec<Resource>)
        ensures
            r@.len() == 2,
            r@[0].uri@ == "capture://last"@,
            r@[0].name@ == "Last Capture"@,
            r@[0]@.description == Some("The most recent screen capture"@),
            r@[0]@.mime_type == Some("image/png"@),
            r@[1].uri@ == "capture://list"@,
            r@[1].name@ == "Capture List"@,
            r@[1]@.description == Some("List of available captures"@),
            r@[1]@.mime_type == Some("application/json"@),
    {
        let mut rs: Vec<Resource> = Vec::new();
        rs.push(
            Resource {
                uri: String::from_str("capture://last"),
                name: String::from_str("Last Capture"),
                description: Some(String::from_str("The most recent screen capture")),
                mime_type: Some(String::from_str("image/png")),
            },
        );
        rs.push(
            Resource {
                uri: String::from_str("capture://list"),
                name: String::from_str("Capture List"),
                description: Some(String::from_str("List of available captures")),
                mime_type: Some(String::from_str("application/json")),
            },
        );
        rs
    }

    /// The file a screenshot is captured into, named by its timestamp.
    pub fn screenshot_filename(&self, timestamp: i64, format: &str) -> (s: String)
        ensures
            s@ == self.capture_dir@ + "/screenshot_"@ + dec_int(timestamp as int) + "."@ + format@,
    {
        let mut s = self.capture_dir.clone().concat("/screenshot_");
        push_i64(&mut s, timestamp);
        let r = s.concat(".").concat(format);
        proof {
            assert(r@ =~= self.capture_dir@ + "/screenshot_"@ + dec_int(timestamp as int) + "."@
                + format@);
        }
        r
    }

    /// The file a window capture is captured into.
    pub fn window_filename(&self, timestamp: i64, format: &str) -> (s: String)
        ensures
            s@ == self.capture_dir@ + "/window_"@ + dec_int(timestamp as int) + "."@ + format@,
    {
        let mut s = self.capture_dir.clone().concat("/window_");
        push_i64(&mut s, timestamp);
        let r = s.concat(".").concat(format);
        proof {
            assert(r@ =~= self.capture_dir@ + "/window_"@ + dec_int(timestamp as int) + "."@
                + format@);
        }
        r
    }

    /// The file a recording is written into.
    pub fn recording_filename(&self, timestamp: i64, format: &str) -> (s: String)
        ensures
            s@ == self.capture_dir@ + "/recording_"@ + dec_int(timestamp as int) + "."@ + format@,
    {
        let mut s = self.capture_dir.clone().concat("/recording_");
        push_i64(&mut s, timestamp);
        let r = s.concat(".").concat(format);
        proof {
            assert(r@ =~= self.capture_dir@ + "/recording_"@ + dec_int(timestamp as int) + "."@
                + format@);
        }
        r
    }

    /// The file holding the running recording's process id.
    pub fn pid_file(&self) -> (s: String)
        ensures
            s@ == self.capture_dir@ + "/recording.pid"@,
    {
        self.capture_dir.clone().concat("/recording.pid")
    }

    /// The geometry argument handed to the capture tool for a region.
    pub fn grim_geometry(&self, x: i64, y: i64, width: i64, height: i64) -> (s: String)
        ensures
            s@ == dec_int(x as int) + ","@ + dec_int(y as int) + " "@ + dec_int(width as int)
                + "x"@ + dec_int(height as int),
    {
        let mut s = String::new();
        push_i64(&mut s, x);
        s = s.concat(",");
        push_i64(&mut s, y);
        s = s.concat(" ");
        push_i64(&mut s, width);
        s = s.concat("x");
        push_i64(&mut s, height);
        proof {
            assert(s@ =~= dec_int(x as int) + ","@ + dec_int(y as int) + " "@ + dec_int(
                width as int,
            ) + "x"@ + dec_int(height as int));
        }
        s
    }

    /// The region of a screenshot request, when all four coordinates
    /// are given as integers.
    pub fn region_request(&self, args: &ToolArgs) -> (r: Option<(i64, i64, i64, i64)>)
        ensures
            ({
                let ps = jv_of_pairs(args.args@);
                match lookup(ps, "region"@) {
                    Some(reg) => reg is Obj && (match (
                        lookup(reg->Obj_0, "x"@),
                        lookup(reg->Obj_0, "y"@),
                        lookup(reg->Obj_0, "width"@),
                        lookup(reg->Obj_0, "height"@),
                    ) {
                        (
                            Some(JsonV::Int(x)),
                            Some(JsonV::Int(y)),
                            Some(JsonV::Int(w)),
                            Some(JsonV::Int(h)),
                        ) => r matches Some(t) && t.0 == x && t.1 == y && t.2 == w && t.3 == h,
                        _ => r is None,
                    }) || (!(reg is Obj) && r is None),
                    None => r is None,
                }
            }),
    {
        match args.get("region") {
            Some(reg) => match reg {
                JsonValue::Obj(rm) => {
                    match (
                        crate::json::obj_get(rm, "x"),
                        crate::json::obj_get(rm, "y"),
                        crate::json::obj_get(rm, "width"),
                        crate::json::obj_get(rm, "height"),
                    ) {
                        (
                            Some(JsonValue::Int(x)),
                            Some(JsonValue::Int(y)),
                            Some(JsonValue::Int(w)),
                            Some(JsonValue::Int(h)),
                        ) => Some((*x, *y, *w, *h)),
                        _ => None,
                    }
                },
                _ => None,
            },
            None => None,
        }
    }

    /// Packs a captured image into a tool result: one encoded image
    /// item, plus metadata naming the file, the timestamp and the byte
    /// count.
    pub fn capture_result(
        &self,
        image: &Vec<u8>,
        format: &str,
        filename: &str,
        timestamp: i64,
    ) -> (r: MCPToolResult)
        requires
            image@.len() <= i64::MAX,
        ensures
            r.content@.len() == 1,
            r.content@[0] matches MCPContent::Image { data, mime_type } && data@ == base64_of(
                image@,
            ) && mime_type@ == "image/"@ + format@,
            r.is_error is None,
            r.metadata matches Some(m) && m@ == JsonV::Obj(
                seq![
                    ("filename"@, JsonV::Str(filename@)),
                    ("timestamp"@, JsonV::Int(timestamp as int)),
                    ("size"@, JsonV::Int(image@.len() as int)),
                ],
            ),
    {
        let data = base64_encode(image);
        let mime = String::from_str("image/").concat(format);
        let mut content: Vec<MCPContent> = Vec::new();
        content.push(MCPContent::Image { data, mime_type: mime });
        let mut meta: Vec<(String, JsonValue)> = Vec::new();
        meta.push((String::from_str("filename"), JsonValue::Str(filename.to_owned())));
        meta.push((String::from_str("timestamp"), JsonValue::Int(timestamp)));
        meta.push((String::from_str("size"), JsonValue::Int(image.len() as i64)));
        proof {
            lemma_jv_of_pairs(meta@);
            assert(jv_of_pairs(meta@) =~= seq![
                ("filename"@, JsonV::Str(filename@)),
                ("timestamp"@, JsonV::Int(timestamp as int)),
                ("size"@, JsonV::Int(image@.len() as int)),
            ]);
        }
        MCPToolResult { content, is_error: None, metadata: Some(JsonValue::Obj(meta)) }
    }

    /// The wording reported when a recording starts.
    pub fn recording_started_text(&self, filename: &str) -> (s: String)
        ensures
            s@ == "Started recording to "@ + filename@ + ". Use stop_recording to finish."@,
    {
        String::from_str("Started recording to ").concat(filename).concat(
            ". Use stop_recording to finish.",
        )
    }
}

} // verus!

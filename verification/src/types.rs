//! The data the protocol exchanges: account records, story options and the
//! narrative transcript.

use vstd::prelude::*;
use vstd::string::*;
use vstd::utf8::encode_utf8;
use crate::json::{jfield, jobject, opt_field, comma_join, lemma_comma_join_snoc, push_field, start_options_json};

verus! {

/// The server-returned account record. The protocol consumes only the access
/// token; every other field of the server's answer is pass-through data that
/// the surrounding application may keep or drop.
#[derive(Debug, Clone, PartialEq, Eq)]
pub struct User {
    pub access_token: String,
}

/// Whether one narrative event is the player's input or generated output.
#[derive(Debug, Clone, Copy, PartialEq, Eq, Structural)]
pub enum StoryKind {
    Input,
    Output,
}

/// A terminal marker on the last event of a finished story.
#[derive(Debug, Clone, Copy, PartialEq, Eq, Structural)]
pub enum Conclusion {
    Win,
    Lose,
}

/// One narrative event of a story transcript.
#[derive(Debug, Clone, PartialEq, Eq)]
pub struct StoryText {
    pub kind: StoryKind,
    pub value: String,
    pub conclusion: Option<Conclusion>,
}

/// The server's answer to starting a session: the new session identifier and
/// the opening transcript.
#[derive(Debug, Clone, PartialEq, Eq)]
pub struct Story {
    pub id: u64,
    pub story: Vec<StoryText>,
}

/// The server-suggested catalog of starting configurations. The client treats
/// it as opaque pass-through data, so it is kept as the raw response text.
#[derive(Debug, Clone, PartialEq, Eq)]
pub struct StartModesContainer {
    pub raw: String,
}

/// The options a new session is started with. A fully custom opening carries
/// only its prompt; a pre-made template carries the mode with a name and a
/// character type, and no prompt. The split makes the two shapes mutually
/// exclusive by construction.
#[derive(Debug, Clone, PartialEq, Eq)]
pub enum StartOptions {
    Custom { custom_prompt: String },
    Premade { story_mode: String, name: String, character_type: String },
}

impl StartOptions {
    /// The one rule the variants cannot carry themselves: a pre-made template
    /// never names the mode reserved for custom openings.
    pub open spec fn wf(&self) -> bool {
        self matches StartOptions::Premade { story_mode, .. } ==> story_mode@ != "custom"@
    }
}

/// The wire body a session is started with.
pub open spec fn start_options_wire(o: StartOptions) -> Seq<u8> {
    match o {
        StartOptions::Custom { custom_prompt } => start_options_json(
            None,
            Some(encode_utf8(custom_prompt@)),
            None,
            "custom".spec_bytes(),
        ),
        StartOptions::Premade { story_mode, name, character_type } => start_options_json(
            Some(encode_utf8(character_type@)),
            None,
            Some(encode_utf8(name@)),
            encode_utf8(story_mode@),
        ),
    }
}

/// A custom opening puts exactly its prompt and the custom mode on the wire,
/// and a well-formed pre-made one exactly the character type, name and its
/// own (never the custom) mode: neither shape carries the other's fields.
pub proof fn lemma_start_options_field_exclusion(o: StartOptions)
    requires
        o.wf(),
    ensures
        o is Premade ==> o->story_mode@ != "custom"@,
        o is Custom ==> start_options_wire(o) == jobject(
            seq![
                jfield("customPrompt".spec_bytes(), encode_utf8(o->custom_prompt@)),
                jfield("storyMode".spec_bytes(), "custom".spec_bytes()),
            ],
        ),
        o is Premade ==> start_options_wire(o) == jobject(
            seq![
                jfield("characterType".spec_bytes(), encode_utf8(o->character_type@)),
                jfield("name".spec_bytes(), encode_utf8(o->name@)),
                jfield("storyMode".spec_bytes(), encode_utf8(o->story_mode@)),
            ],
        ),
{
    match o {
        StartOptions::Custom { custom_prompt } => {
            assert(opt_field("characterType".spec_bytes(), None) + opt_field(
                "customPrompt".spec_bytes(),
                Some(encode_utf8(custom_prompt@)),
            ) + opt_field("name".spec_bytes(), None) + seq![
                jfield("storyMode".spec_bytes(), "custom".spec_bytes()),
            ] =~= seq![
                jfield("customPrompt".spec_bytes(), encode_utf8(custom_prompt@)),
                jfield("storyMode".spec_bytes(), "custom".spec_bytes()),
            ]);
        },
        StartOptions::Premade { story_mode, name, character_type } => {
            assert(opt_field("characterType".spec_bytes(), Some(encode_utf8(character_type@)))
                + opt_field("customPrompt".spec_bytes(), None) + opt_field(
                "name".spec_bytes(),
                Some(encode_utf8(name@)),
            ) + seq![jfield("storyMode".spec_bytes(), encode_utf8(story_mode@))] =~= seq![
                jfield("characterType".spec_bytes(), encode_utf8(character_type@)),
                jfield("name".spec_bytes(), encode_utf8(name@)),
                jfield("storyMode".spec_bytes(), encode_utf8(story_mode@)),
            ]);
        },
    }
}

/// Builds the body of a session-start request.
pub fn encode_start_options(o: &StartOptions) -> (body: Vec<u8>)
    ensures
        body@ == start_options_wire(*o),
{
    let mut out: Vec<u8> = Vec::new();
    out.push(123);
    let ghost mut parts: Seq<Seq<u8>> = Seq::empty();
    assert(out@ =~= seq![123u8] + comma_join(parts));
    match o {
        StartOptions::Custom { custom_prompt } => {
            push_field(&mut out, true, "customPrompt", custom_prompt.as_str());
            proof {
                let f = jfield("customPrompt".spec_bytes(), encode_utf8(custom_prompt@));
                lemma_comma_join_snoc(parts, f);
                parts = parts.push(f);
                assert(out@ =~= seq![123u8] + comma_join(parts));
            }
            push_field(&mut out, false, "storyMode", "custom");
            proof {
                let f = jfield("storyMode".spec_bytes(), "custom".spec_bytes());
                lemma_comma_join_snoc(parts, f);
                parts = parts.push(f);
                assert(out@ =~= seq![123u8] + comma_join(parts));
                assert(parts =~= opt_field("characterType".spec_bytes(), None) + opt_field(
                    "customPrompt".spec_bytes(),
                    Some(encode_utf8(custom_prompt@)),
                ) + opt_field("name".spec_bytes(), None) + seq![f]);
            }
        },
        StartOptions::Premade { story_mode, name, character_type } => {
            push_field(&mut out, true, "characterType", character_type.as_str());
            proof {
                let f = jfield("characterType".spec_bytes(), encode_utf8(character_type@));
                lemma_comma_join_snoc(parts, f);
                parts = parts.push(f);
                assert(out@ =~= seq![123u8] + comma_join(parts));
            }
            push_field(&mut out, false, "name", name.as_str());
            proof {
                let f = jfield("name".spec_bytes(), encode_utf8(name@));
                lemma_comma_join_snoc(parts, f);
                parts = parts.push(f);
                assert(out@ =~= seq![123u8] + comma_join(parts));
            }
            push_field(&mut out, false, "storyMode", story_mode.as_str());
            proof {
                let f = jfield("storyMode".spec_bytes(), encode_utf8(story_mode@));
                lemma_comma_join_snoc(parts, f);
                parts = parts.push(f);
                assert(out@ =~= seq![123u8] + comma_join(parts));
                assert(parts =~= opt_field(
                    "characterType".spec_bytes(),
                    Some(encode_utf8(character_type@)),
                ) + opt_field("customPrompt".spec_bytes(), None) + opt_field(
                    "name".spec_bytes(),
                    Some(encode_utf8(name@)),
                ) + seq![f]);
            }
        },
    }
    out.push(125);
    proof {
        assert(out@ =~= jobject(parts));
    }
    out
}

} // verus!

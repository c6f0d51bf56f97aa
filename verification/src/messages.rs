//! Chat-message payload data model.
//!
//! The downstream payload is consumed only after authentication succeeds.
//! Its references are polymorphic: a discriminant field selects a known
//! shape, and a missing or unknown discriminant — or a known shape that
//! fails structural validation — falls back to an unrecognized variant
//! that retains the raw payload.

use vstd::prelude::*;
use vstd::string::*;

verus! {

/// A chat request: the conversation thread and its messages.
#[derive(PartialEq, Eq, Debug)]
pub struct ChatRequest {
    pub copilot_thread_id: String,
    pub messages: Vec<ChatMessage>,
}

/// One message of the conversation.
#[derive(PartialEq, Eq, Debug)]
pub struct ChatMessage {
    pub role: Role,
    pub content: String,
    pub copilot_references: Vec<CopilotReference>,
}

/// Who authored a message; an unrecognized role keeps its raw name.
#[derive(PartialEq, Eq, Debug)]
pub enum Role {
    User,
    Assistant,
    Unknown(String),
}

/// A polymorphic payload reference: one variant per known discriminant,
/// plus an unrecognized variant retaining the raw payload.
#[derive(PartialEq, Eq, Debug)]
pub enum CopilotReference {
    GithubRepository(CopilotReferenceData<GithubRepository>),
    ClientFile(CopilotReferenceData<ClientFile>),
    Unknown(String),
}

/// The envelope common to all known reference shapes.
#[derive(PartialEq, Eq, Debug, Default)]
pub struct CopilotReferenceData<T> {
    pub data: T,
    pub id: String,
    pub is_implicit: bool,
    pub metadata: CopilotReferenceMetadata,
}

/// Display hints carried alongside a reference.
#[derive(PartialEq, Eq, Debug, Default)]
pub struct CopilotReferenceMetadata {
    pub display_name: String,
    pub display_icon: String,
    pub display_url: String,
}

/// A referenced repository.
#[derive(PartialEq, Eq, Debug, Default)]
pub struct GithubRepository {
    pub repository_type: String,
    pub id: u64,
    pub name: String,
    pub owner_login: String,
    pub owner_type: String,
    pub readme_path: String,
    pub description: String,
    pub commit_oid: String,
    pub git_ref: String,
    pub ref_info: GithubRefInfo,
    pub visibility: String,
    pub languages: Option<String>,
}

/// The branch or tag a repository reference points at.
#[derive(PartialEq, Eq, Debug, Default)]
pub struct GithubRefInfo {
    pub ref_type: String,
    pub name: String,
}

/// A file open in the client.
#[derive(PartialEq, Eq, Debug, Default)]
pub struct ClientFile {
    pub content: String,
    pub language: String,
}

/// Which known shape a reference's discriminant selects.
#[derive(Clone, Copy, Debug, PartialEq, Eq, Structural)]
pub enum ReferenceTag {
    GithubRepository,
    ClientFile,
    Unknown,
}

/// The characters of an optional borrowed string.
pub open spec fn opt_ref_text(s: Option<&String>) -> Option<Seq<char>> {
    match s {
        Option::None => Option::None,
        Option::Some(v) => Option::Some(v@),
    }
}

/// The shape a discriminant selects: `github.repository` and `client.file`
/// are known; anything else — or no discriminant at all — is unrecognized.
pub open spec fn reference_tag_of(discriminant: Option<Seq<char>>) -> ReferenceTag {
    match discriminant {
        Option::None => ReferenceTag::Unknown,
        Option::Some(d) => if d == "github.repository"@ {
            ReferenceTag::GithubRepository
        } else if d == "client.file"@ {
            ReferenceTag::ClientFile
        } else {
            ReferenceTag::Unknown
        },
    }
}

/// Selects the known shape named by a reference's discriminant field.
pub fn classify_reference(discriminant: Option<&String>) -> (r: ReferenceTag)
    ensures
        r == reference_tag_of(opt_ref_text(discriminant)),
{
    match discriminant {
        None => ReferenceTag::Unknown,
        Some(d) => {
            if d.eq(&"github.repository".to_owned()) {
                ReferenceTag::GithubRepository
            } else if d.eq(&"client.file".to_owned()) {
                ReferenceTag::ClientFile
            } else {
                ReferenceTag::Unknown
            }
        },
    }
}

/// Resolves a polymorphic reference. The discriminant selects a known
/// shape; the shape's structural validation result is handed in as the
/// corresponding `Option`. A missing or unknown discriminant, or a failed
/// validation of the selected shape, falls back to the unrecognized
/// variant carrying the raw payload.
pub fn resolve_reference(
    discriminant: Option<&String>,
    parsed_repository: Option<CopilotReferenceData<GithubRepository>>,
    parsed_file: Option<CopilotReferenceData<ClientFile>>,
    raw: String,
) -> (r: CopilotReference)
    ensures
        (match reference_tag_of(opt_ref_text(discriminant)) {
            ReferenceTag::GithubRepository => (match parsed_repository {
                Option::Some(data) => r == CopilotReference::GithubRepository(data),
                Option::None => r == CopilotReference::Unknown(raw),
            }),
            ReferenceTag::ClientFile => (match parsed_file {
                Option::Some(data) => r == CopilotReference::ClientFile(data),
                Option::None => r == CopilotReference::Unknown(raw),
            }),
            ReferenceTag::Unknown => r == CopilotReference::Unknown(raw),
        }),
{
    match classify_reference(discriminant) {
        ReferenceTag::GithubRepository => match parsed_repository {
            Some(data) => CopilotReference::GithubRepository(data),
            None => CopilotReference::Unknown(raw),
        },
        ReferenceTag::ClientFile => match parsed_file {
            Some(data) => CopilotReference::ClientFile(data),
            None => CopilotReference::Unknown(raw),
        },
        ReferenceTag::Unknown => CopilotReference::Unknown(raw),
    }
}

} // verus!

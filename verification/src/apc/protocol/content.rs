//! Content blocks: the units of message content.

use vstd::prelude::*;

verus! {

/// Whom a piece of content is meant for.
#[derive(PartialEq, Eq, Clone, Copy, Debug, Structural)]
pub enum Role {
    Assistant,
    User,
}

impl Role {
    /// The name of the role.
    pub open spec fn name(self) -> Seq<char> {
        match self {
            Role::Assistant => "Assistant"@,
            Role::User => "User"@,
        }
    }

    pub fn as_str(&self) -> (name: &'static str)
        ensures
            name@ == self.name(),
    {
        match self {
            Role::Assistant => "Assistant",
            Role::User => "User",
        }
    }
}

/// Hints on how a piece of content is to be used. Each field is optional on
/// its own.
#[derive(Debug, Clone)]
pub struct Annotations {
    pub audience: Option<Vec<Role>>,
    pub last_modified: Option<String>,
    /// The priority, a double, as its IEEE-754 bit pattern.
    pub priority: Option<u64>,
    pub meta: Option<String>,
}

impl Annotations {
    pub fn new() -> (annotations: Annotations)
        ensures
            annotations.audience is None,
            annotations.last_modified is None,
            annotations.priority is None,
            annotations.meta is None,
    {
        Annotations { audience: None, last_modified: None, priority: None, meta: None }
    }

    pub fn audience(self, audience: Vec<Role>) -> (annotations: Annotations)
        ensures
            annotations == (Annotations { audience: Some(audience), ..self }),
    {
        Annotations { audience: Some(audience), ..self }
    }

    pub fn last_modified(self, last_modified: String) -> (annotations: Annotations)
        ensures
            annotations == (Annotations { last_modified: Some(last_modified), ..self }),
    {
        Annotations { last_modified: Some(last_modified), ..self }
    }

    /// Sets the priority, given as the bit pattern of a double.
    pub fn priority(self, bits: u64) -> (annotations: Annotations)
        ensures
            annotations == (Annotations { priority: Some(bits), ..self }),
    {
        Annotations { priority: Some(bits), ..self }
    }
}

/// Text, in plain form or Markdown.
#[derive(Debug, Clone)]
pub struct TextContent {
    pub annotations: Option<Annotations>,
    pub text: String,
    pub meta: Option<String>,
}

impl TextContent {
    pub fn new(text: &str) -> (content: TextContent)
        ensures
            content.text@ == text@,
            content.annotations is None,
            content.meta is None,
    {
        TextContent { annotations: None, text: text.to_owned(), meta: None }
    }

    pub fn annotations(self, annotations: Annotations) -> (content: TextContent)
        ensures
            content == (TextContent { annotations: Some(annotations), ..self }),
    {
        TextContent { annotations: Some(annotations), ..self }
    }

    pub fn meta(self, meta: String) -> (content: TextContent)
        ensures
            content == (TextContent { meta: Some(meta), ..self }),
    {
        TextContent { meta: Some(meta), ..self }
    }
}

/// An image, as encoded data with its media type.
#[derive(Debug, Clone)]
pub struct ImageContent {
    pub annotations: Option<Annotations>,
    pub data: String,
    pub mime_type: String,
    pub uri: Option<String>,
    pub meta: Option<String>,
}

impl ImageContent {
    pub fn new(data: &str, mime_type: &str) -> (content: ImageContent)
        ensures
            content.data@ == data@,
            content.mime_type@ == mime_type@,
            content.annotations is None,
            content.uri is None,
            content.meta is None,
    {
        ImageContent {
            annotations: None,
            data: data.to_owned(),
            mime_type: mime_type.to_owned(),
            uri: None,
            meta: None,
        }
    }

    pub fn annotations(self, annotations: Annotations) -> (content: ImageContent)
        ensures
            content == (ImageContent { annotations: Some(annotations), ..self }),
    {
        ImageContent { annotations: Some(annotations), ..self }
    }

    pub fn uri(self, uri: String) -> (content: ImageContent)
        ensures
            content == (ImageContent { uri: Some(uri), ..self }),
    {
        ImageContent { uri: Some(uri), ..self }
    }

    pub fn meta(self, meta: String) -> (content: ImageContent)
        ensures
            content == (ImageContent { meta: Some(meta), ..self }),
    {
        ImageContent { meta: Some(meta), ..self }
    }
}

/// Audio, as encoded data with its media type. The editor has no rendering
/// for it.
#[derive(Debug, Clone)]
pub struct AudioContent {
    pub annotations: Option<Annotations>,
    pub data: String,
    pub mime_type: String,
    pub meta: Option<String>,
}

impl AudioContent {
    pub fn new(data: &str, mime_type: &str) -> (content: AudioContent)
        ensures
            content.data@ == data@,
            content.mime_type@ == mime_type@,
            content.annotations is None,
            content.meta is None,
    {
        AudioContent {
            annotations: None,
            data: data.to_owned(),
            mime_type: mime_type.to_owned(),
            meta: None,
        }
    }
}

/// The text of an embedded resource.
#[derive(Debug, Clone)]
pub struct TextResourceContents {
    pub mime_type: Option<String>,
    pub text: String,
    pub uri: String,
    pub meta: Option<String>,
}

impl TextResourceContents {
    pub fn new(text: &str, uri: &str) -> (contents: TextResourceContents)
        ensures
            contents.text@ == text@,
            contents.uri@ == uri@,
            contents.mime_type is None,
            contents.meta is None,
    {
        TextResourceContents {
            mime_type: None,
            text: text.to_owned(),
            uri: uri.to_owned(),
            meta: None,
        }
    }

    pub fn mime_type(self, mime_type: String) -> (contents: TextResourceContents)
        ensures
            contents == (TextResourceContents { mime_type: Some(mime_type), ..self }),
    {
        TextResourceContents { mime_type: Some(mime_type), ..self }
    }
}

/// The binary data of an embedded resource, encoded as text.
#[derive(Debug, Clone)]
pub struct BlobResourceContents {
    pub blob: String,
    pub mime_type: Option<String>,
    pub uri: String,
    pub meta: Option<String>,
}

impl BlobResourceContents {
    pub fn new(blob: &str, uri: &str) -> (contents: BlobResourceContents)
        ensures
            contents.blob@ == blob@,
            contents.uri@ == uri@,
            contents.mime_type is None,
            contents.meta is None,
    {
        BlobResourceContents {
            blob: blob.to_owned(),
            mime_type: None,
            uri: uri.to_owned(),
            meta: None,
        }
    }

    pub fn mime_type(self, mime_type: String) -> (contents: BlobResourceContents)
        ensures
            contents == (BlobResourceContents { mime_type: Some(mime_type), ..self }),
    {
        BlobResourceContents { mime_type: Some(mime_type), ..self }
    }
}

/// What an embedded resource holds: text or binary data.
#[derive(Debug, Clone)]
pub enum EmbeddedResourceResource {
    TextResourceContents(TextResourceContents),
    BlobResourceContents(BlobResourceContents),
}

/// A resource whose contents travel inside the message.
#[derive(Debug, Clone)]
pub struct EmbeddedResource {
    pub annotations: Option<Annotations>,
    pub resource: EmbeddedResourceResource,
    pub meta: Option<String>,
}

impl EmbeddedResource {
    pub fn new(resource: EmbeddedResourceResource) -> (block: EmbeddedResource)
        ensures
            block.resource == resource,
            block.annotations is None,
            block.meta is None,
    {
        EmbeddedResource { annotations: None, resource, meta: None }
    }

    pub fn annotations(self, annotations: Annotations) -> (block: EmbeddedResource)
        ensures
            block == (EmbeddedResource { annotations: Some(annotations), ..self }),
    {
        EmbeddedResource { annotations: Some(annotations), ..self }
    }

    pub fn meta(self, meta: String) -> (block: EmbeddedResource)
        ensures
            block == (EmbeddedResource { meta: Some(meta), ..self }),
    {
        EmbeddedResource { meta: Some(meta), ..self }
    }
}

/// A reference to a resource that the agent can read.
#[derive(Debug, Clone)]
pub struct ResourceLink {
    pub annotations: Option<Annotations>,
    pub description: Option<String>,
    pub mime_type: Option<String>,
    pub name: String,
    pub size: Option<i64>,
    pub title: Option<String>,
    pub uri: String,
    pub meta: Option<String>,
}

impl ResourceLink {
    pub fn new(name: &str, uri: &str) -> (link: ResourceLink)
        ensures
            link.name@ == name@,
            link.uri@ == uri@,
            link.annotations is None,
            link.description is None,
            link.mime_type is None,
            link.size is None,
            link.title is None,
            link.meta is None,
    {
        ResourceLink {
            annotations: None,
            description: None,
            mime_type: None,
            name: name.to_owned(),
            size: None,
            title: None,
            uri: uri.to_owned(),
            meta: None,
        }
    }

    pub fn annotations(self, annotations: Annotations) -> (link: ResourceLink)
        ensures
            link == (ResourceLink { annotations: Some(annotations), ..self }),
    {
        ResourceLink { annotations: Some(annotations), ..self }
    }

    pub fn description(self, description: String) -> (link: ResourceLink)
        ensures
            link == (ResourceLink { description: Some(description), ..self }),
    {
        ResourceLink { description: Some(description), ..self }
    }

    pub fn mime_type(self, mime_type: String) -> (link: ResourceLink)
        ensures
            link == (ResourceLink { mime_type: Some(mime_type), ..self }),
    {
        ResourceLink { mime_type: Some(mime_type), ..self }
    }

    pub fn size(self, size: i64) -> (link: ResourceLink)
        ensures
            link == (ResourceLink { size: Some(size), ..self }),
    {
        ResourceLink { size: Some(size), ..self }
    }

    pub fn title(self, title: String) -> (link: ResourceLink)
        ensures
            link == (ResourceLink { title: Some(title), ..self }),
    {
        ResourceLink { title: Some(title), ..self }
    }

    pub fn meta(self, meta: String) -> (link: ResourceLink)
        ensures
            link == (ResourceLink { meta: Some(meta), ..self }),
    {
        ResourceLink { meta: Some(meta), ..self }
    }
}

/// One unit of message content.
#[derive(Debug, Clone)]
pub enum ContentBlock {
    Text(TextContent),
    Image(ImageContent),
    Audio(AudioContent),
    ResourceLink(ResourceLink),
    Resource(EmbeddedResource),
}

} // verus!

use vstd::prelude::*;
use vstd::string::*;

verus! {

/// The abstract message shapes a caller can ask a platform to deliver.
#[derive(Debug, Clone)]
pub enum MessageType {
    Text(String),
    Markdown(String),
    Rich { title: String, content: String, url: Option<String> },
    Image { url: String, caption: Option<String> },
    Link { title: String, description: String, url: String, image_url: Option<String> },
}

/// The mathematical model of a message: the same shape over character
/// sequences.
pub enum MessageModel {
    Text(Seq<char>),
    Markdown(Seq<char>),
    Rich { title: Seq<char>, content: Seq<char>, url: Option<Seq<char>> },
    Image { url: Seq<char>, caption: Option<Seq<char>> },
    Link { title: Seq<char>, description: Seq<char>, url: Seq<char>, image_url: Option<Seq<char>> },
}

pub open spec fn opt_view(o: Option<String>) -> Option<Seq<char>> {
    match o {
        Some(s) => Some(s@),
        None => None,
    }
}

impl View for MessageType {
    type V = MessageModel;

    open spec fn view(&self) -> MessageModel {
        match self {
            MessageType::Text(c) => MessageModel::Text(c@),
            MessageType::Markdown(c) => MessageModel::Markdown(c@),
            MessageType::Rich { title, content, url } => MessageModel::Rich {
                title: title@,
                content: content@,
                url: opt_view(*url),
            },
            MessageType::Image { url, caption } => MessageModel::Image {
                url: url@,
                caption: opt_view(*caption),
            },
            MessageType::Link { title, description, url, image_url } => MessageModel::Link {
                title: title@,
                description: description@,
                url: url@,
                image_url: opt_view(*image_url),
            },
        }
    }
}

/// The priority a caller may attach to a message while building it.
/// No shipped integration consumes it yet.
#[derive(Debug, Clone, Copy, PartialEq, Eq, Structural)]
pub enum Priority {
    Low,
    Normal,
    High,
    Urgent,
}

/// The static capability descriptor of one integration type.
#[derive(Debug, Clone)]
pub struct PlatformInfo {
    pub name: String,
    pub version: String,
    pub features: Vec<String>,
    pub supports_markdown: bool,
    pub supports_rich_text: bool,
    pub supports_images: bool,
}

/// The model of a capability descriptor.
#[verifier::ext_equal]
pub struct InfoModel {
    pub name: Seq<char>,
    pub version: Seq<char>,
    pub features: Seq<Seq<char>>,
    pub supports_markdown: bool,
    pub supports_rich_text: bool,
    pub supports_images: bool,
}

impl View for PlatformInfo {
    type V = InfoModel;

    open spec fn view(&self) -> InfoModel {
        InfoModel {
            name: self.name@,
            version: self.version@,
            features: self.features.deep_view(),
            supports_markdown: self.supports_markdown,
            supports_rich_text: self.supports_rich_text,
            supports_images: self.supports_images,
        }
    }
}

/// A step-by-step constructor for a message together with its priority
/// and the users to mention.
pub struct MessageBuilder {
    message_type: MessageType,
    priority: Priority,
    mentions: Vec<String>,
}

/// The model of a builder's state.
#[verifier::ext_equal]
pub struct MessageBuilderModel {
    pub message: MessageModel,
    pub priority: Priority,
    pub mentions: Seq<Seq<char>>,
}

impl View for MessageBuilder {
    type V = MessageBuilderModel;

    closed spec fn view(&self) -> MessageBuilderModel {
        MessageBuilderModel {
            message: self.message_type@,
            priority: self.priority,
            mentions: self.mentions.deep_view(),
        }
    }
}

impl MessageBuilder {
    /// Starts a builder for a plain text message.
    pub fn text(content: &str) -> (r: Self)
        ensures
            r@.message == MessageModel::Text(content@),
            r@.priority == Priority::Normal,
            r@.mentions =~= Seq::<Seq<char>>::empty(),
    {
        Self {
            message_type: MessageType::Text(content.to_owned()),
            priority: Priority::Normal,
            mentions: Vec::new(),
        }
    }

    /// Starts a builder for a markdown message.
    pub fn markdown(content: &str) -> (r: Self)
        ensures
            r@.message == MessageModel::Markdown(content@),
            r@.priority == Priority::Normal,
            r@.mentions =~= Seq::<Seq<char>>::empty(),
    {
        Self {
            message_type: MessageType::Markdown(content.to_owned()),
            priority: Priority::Normal,
            mentions: Vec::new(),
        }
    }

    /// Starts a builder for a rich message without a link.
    pub fn rich(title: &str, content: &str) -> (r: Self)
        ensures
            r@.message == (MessageModel::Rich { title: title@, content: content@, url: None }),
            r@.priority == Priority::Normal,
            r@.mentions =~= Seq::<Seq<char>>::empty(),
    {
        Self {
            message_type: MessageType::Rich {
                title: title.to_owned(),
                content: content.to_owned(),
                url: None,
            },
            priority: Priority::Normal,
            mentions: Vec::new(),
        }
    }

    /// Sets the priority, leaving the message and mentions unchanged.
    pub fn priority(self, priority: Priority) -> (r: Self)
        ensures
            r@.message == self@.message,
            r@.priority == priority,
            r@.mentions == self@.mentions,
    {
        Self { priority, ..self }
    }

    /// Appends one user to the mention list.
    pub fn mention(self, user: &str) -> (r: Self)
        ensures
            r@.message == self@.message,
            r@.priority == self@.priority,
            r@.mentions =~= self@.mentions.push(user@),
    {
        let mut mentions = self.mentions;
        mentions.push(user.to_owned());
        Self { mentions, ..self }
    }

    /// Appends every given user to the mention list, in order.
    pub fn mentions(self, users: Vec<String>) -> (r: Self)
        ensures
            r@.message == self@.message,
            r@.priority == self@.priority,
            r@.mentions =~= self@.mentions + users.deep_view(),
    {
        let mut mentions = self.mentions;
        let mut i: usize = 0;
        while i < users.len()
            invariant
                i <= users.len(),
                mentions@ =~= self.mentions@ + users@.take(i as int),
            decreases users.len() - i,
        {
            mentions.push(users[i].clone());
            proof {
                assert(users@.take(i + 1) =~= users@.take(i as int).push(users@[i as int]));
            }
            i = i + 1;
        }
        proof {
            assert(users@.take(users.len() as int) =~= users@);
            assert(mentions@ =~= self.mentions@ + users@);
            assert(mentions.deep_view() =~= self.mentions.deep_view() + users.deep_view());
        }
        Self { mentions, ..self }
    }

    /// Finishes the builder, yielding the message it holds.
    pub fn build(self) -> (r: MessageType)
        ensures
            r@ == self@.message,
    {
        self.message_type
    }
}

/// Law: a message built from a text builder carries exactly the
/// content the builder was started with, whatever else was set.
pub proof fn lemma_text_round_trip(b: MessageBuilder, m: MessageType, content: Seq<char>)
    requires
        b@.message == MessageModel::Text(content),
        m@ == b@.message,
    ensures
        m@ == MessageModel::Text(content),
{
}

} // verus!

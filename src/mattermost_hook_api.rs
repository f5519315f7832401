//! The Mattermost incoming-webhook payload: messages, attachments, interactive
//! actions, and updates of a post.

use std::collections::HashMap;
use vstd::prelude::*;

verus! {

/// An arbitrary JSON value, carried through unread.
#[verifier::external_type_specification]
#[verifier::external_body]
pub struct ExJsonValue(serde_json::Value);

/// Relies on the `Clone` impl that `serde_json::Value` derives, which the
/// payload types' own `Clone` calls.
pub assume_specification[ <serde_json::Value as Clone>::clone ](v: &serde_json::Value) -> serde_json::Value;

/// A message posted to an incoming webhook.
///
/// `text` is needed when `attachments` is empty, and the other way round.
#[derive(Clone, Debug)]
pub struct Message {
    /// Markdown text of the post.
    pub text: Option<String>,
    /// Channel to post in instead of the webhook's own.
    pub channel: Option<String>,
    /// User name to post as.
    pub username: Option<String>,
    /// Profile picture to post with.
    pub icon_url: Option<String>,
    /// Emoji to post with, in place of the profile picture.
    pub icon_emoji: Option<String>,
    /// Attachments with richer formatting.
    pub attachments: Vec<Attachment>,
    /// The post type (`type` on the wire); must begin with `custom_` if set.
    pub post_type: Option<String>,
    /// The property bag of the post.
    pub props: Option<Props>,
}

/// The request Mattermost makes when a user clicks an action button.
#[derive(Clone, Debug)]
pub struct ActionEvent {
    /// User who clicked.
    pub user_id: String,
    /// Post holding the button.
    pub post_id: String,
    /// Channel holding the post.
    pub channel_id: String,
    /// Team holding the channel.
    pub team_id: String,
    /// Context given with the action, see `Integration::context`.
    pub context: serde_json::Value,
}

/// A message attachment.
#[derive(Clone, Debug)]
pub struct Attachment {
    /// Plain-text summary, for notifications and clients without formatting.
    pub fallback: String,
    /// Hex color of the left border.
    pub color: Option<String>,
    /// Text shown above the attachment.
    pub pretext: Option<String>,
    /// Markdown text of the attachment.
    pub text: Option<String>,
    /// Name of the author.
    pub author_name: Option<String>,
    /// Link on the author's name.
    pub author_link: Option<String>,
    /// Icon beside the author's name.
    pub author_icon: Option<String>,
    /// Title below the author.
    pub title: Option<String>,
    /// Link on the title.
    pub title_link: Option<String>,
    /// Table of fields.
    pub fields: Vec<Field>,
    /// Image shown inside the attachment.
    pub image_url: Option<String>,
    /// Thumbnail on the right side.
    pub thumb_url: Option<String>,
    /// Text at the bottom.
    pub footer: Option<String>,
    /// Icon before the footer.
    pub footer_icon: Option<String>,
    /// Interactive buttons.
    pub actions: Vec<Action>,
}

/// One cell of an attachment's table.
#[derive(Clone, Debug)]
pub struct Field {
    /// Title above the value.
    pub title: Option<String>,
    /// Markdown value.
    pub value: Option<String>,
    /// Whether the value is short enough to stand beside others.
    pub short: Option<bool>,
}

/// The property bag of a post.
#[derive(Clone, Debug)]
pub struct Props {
    /// Markdown shown in the side panel only.
    pub card: Option<String>,
    /// The other properties.
    pub extras: HashMap<String, serde_json::Value>,
}

/// An interactive button.
#[derive(Clone, Debug)]
pub struct Action {
    /// Label of the button.
    pub name: String,
    /// Where a click is sent.
    pub integration: Integration,
}

/// The endpoint behind an action.
#[derive(Clone, Debug)]
pub struct Integration {
    /// URL the click is posted to.
    pub url: String,
    /// Context sent along with the click.
    pub context: serde_json::Value,
}

/// The answer to a triggered action.
#[derive(Clone, Debug)]
pub struct ActionResponse {
    /// Replacement of parts of the post holding the action.
    pub update: Option<PostUpdate>,
    /// Message shown to the clicking user alone.
    pub ephemeral_text: Option<String>,
}

/// An update of an existing post.
///
/// For each field: `None` keeps it, `Some(None)` clears it and `Some(Some(v))`
/// replaces it by `v`.
#[derive(Clone, Debug)]
pub struct PostUpdate {
    /// New text of the post.
    pub message: Option<Option<String>>,
    /// New properties of the post.
    pub props: Option<Option<PostProps>>,
}

/// Additional properties of a post.
#[derive(Clone, Debug)]
pub struct PostProps {
    /// Markdown shown in the side panel only.
    pub card: Option<String>,
    /// Attachments of the post.
    pub attachments: Vec<Attachment>,
    /// The other properties.
    pub extras: HashMap<String, serde_json::Value>,
}

impl Default for Message {
    fn default() -> (r: Message)
        ensures
            r.text is None,
            r.channel is None,
            r.username is None,
            r.icon_url is None,
            r.icon_emoji is None,
            r.attachments@.len() == 0,
            r.post_type is None,
            r.props is None,
    {
        Message {
            text: None,
            channel: None,
            username: None,
            icon_url: None,
            icon_emoji: None,
            attachments: Vec::new(),
            post_type: None,
            props: None,
        }
    }
}

impl Default for Attachment {
    fn default() -> (r: Attachment)
        ensures
            r.fallback@.len() == 0,
            r.color is None,
            r.pretext is None,
            r.text is None,
            r.author_name is None,
            r.author_link is None,
            r.author_icon is None,
            r.title is None,
            r.title_link is None,
            r.fields@.len() == 0,
            r.image_url is None,
            r.thumb_url is None,
            r.footer is None,
            r.footer_icon is None,
            r.actions@.len() == 0,
    {
        Attachment {
            fallback: String::new(),
            color: None,
            pretext: None,
            text: None,
            author_name: None,
            author_link: None,
            author_icon: None,
            title: None,
            title_link: None,
            fields: Vec::new(),
            image_url: None,
            thumb_url: None,
            footer: None,
            footer_icon: None,
            actions: Vec::new(),
        }
    }
}

impl Default for Field {
    fn default() -> (r: Field)
        ensures
            r.title is None,
            r.value is None,
            r.short is None,
    {
        Field { title: None, value: None, short: None }
    }
}

impl Default for Props {
    fn default() -> (r: Props)
        ensures
            r.card is None,
            r.extras@ == Map::<String, serde_json::Value>::empty(),
    {
        Props { card: None, extras: HashMap::new() }
    }
}

impl Default for ActionResponse {
    fn default() -> (r: ActionResponse)
        ensures
            r.update is None,
            r.ephemeral_text is None,
    {
        ActionResponse { update: None, ephemeral_text: None }
    }
}

impl Default for PostProps {
    fn default() -> (r: PostProps)
        ensures
            r.card is None,
            r.attachments@.len() == 0,
            r.extras@ == Map::<String, serde_json::Value>::empty(),
    {
        PostProps { card: None, attachments: Vec::new(), extras: HashMap::new() }
    }
}

/// Whether `r` is the update that makes a post show `msg`: its text, if it
/// has one, and its attachments and properties, if it has any of them.
pub open spec fn is_update_of(msg: Message, r: PostUpdate) -> bool {
    &&& r.message == (match msg.text {
        Some(t) => Some(Some(t)),
        None => None::<Option<String>>,
    })
    &&& (msg.attachments@.len() > 0 || msg.props is Some) <==> r.props is Some
    &&& r.props is Some ==> r.props.unwrap() is Some
    &&& r.props is Some ==> ({
        let p = r.props.unwrap().unwrap();
        &&& p.attachments@ == msg.attachments@
        &&& p.card == (match msg.props {
            Some(q) => q.card,
            None => None::<String>,
        })
        &&& p.extras@ == (match msg.props {
            Some(q) => q.extras@,
            None => Map::<String, serde_json::Value>::empty(),
        })
    })
}

impl PostUpdate {
    /// The update that makes a post show `msg`.
    pub fn from_message(msg: Message) -> (r: PostUpdate)
        ensures
            is_update_of(msg, r),
    {
        let message = match msg.text {
            Some(t) => Some(Some(t)),
            None => None,
        };
        let props = if msg.attachments.len() > 0 || msg.props.is_some() {
            let mut pprops = PostProps::default();
            pprops.attachments = msg.attachments;
            match msg.props {
                Some(q) => {
                    pprops.card = q.card;
                    pprops.extras = q.extras;
                },
                None => {},
            }
            Some(Some(pprops))
        } else {
            None
        };
        PostUpdate { message, props }
    }
}

impl From<Message> for PostUpdate {
    /// Same as `PostUpdate::from_message`.
    fn from(msg: Message) -> (r: PostUpdate)
        ensures
            is_update_of(msg, r),
    {
        PostUpdate::from_message(msg)
    }
}

impl vstd::std_specs::convert::FromSpecImpl<Message> for PostUpdate {
    /// Two updates of one message may hold distinct but equal maps, so the
    /// conversion is described by `is_update_of` rather than by one value.
    open spec fn obeys_from_spec() -> bool {
        false
    }

    open spec fn from_spec(msg: Message) -> PostUpdate {
        choose|r: PostUpdate| is_update_of(msg, r)
    }
}

} // verus!

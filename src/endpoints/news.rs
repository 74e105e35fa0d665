use vstd::prelude::*;

verus! {

/// An attachment of a news item, as the service sends it.
#[derive(Debug)]
pub struct NewsItemAttachment {
    pub id: i32,
    pub file_type: i32,
    pub is_image: bool,
    pub name: String,
    pub original_file_name: String,
    pub ui_link: String,
    pub url: Option<String>,
}

/// Represents an attachment associated with a news item.
#[derive(Debug)]
pub struct Attachment {
    /// The ID of the attachment.
    pub id: i32,
    /// The type of the file.
    pub file_type: i32,
    /// Indicates whether the attachment is an image.
    pub is_image: bool,
    /// The name of the attachment.
    pub name: String,
    /// The original file name of the attachment.
    pub original_file_name: String,
    /// The UI link of the attachment.
    pub ui_link: String,
    /// The URL of the attachment, if available.
    pub url: Option<String>,
}

/// A news item, as the service sends it: its text comes in one or two parts.
#[derive(Debug)]
pub struct NewsItemRes {
    pub attachments: Vec<NewsItemAttachment>,
    pub communication_type: i32,
    pub content1: String,
    pub content2: Option<String>,
    pub created_by_admin: bool,
    pub finish: String,
    pub news_item_id: String,
    pub post_date_time: String,
    pub priority: bool,
    pub title: String,
    pub user_id: i32,
    pub user_image_url: String,
    pub username: String,
}

/// Represents a news item.
#[derive(Debug)]
pub struct NewsItem {
    /// The ID of the news item.
    pub id: String,
    /// The title of the news item.
    pub title: String,
    /// The creation timestamp of the news item.
    pub created_at: String,
    /// The list of attachments associated with the news item.
    pub attachments: Vec<Attachment>,
    /// The communication type of the news item.
    pub communication_type: i32,
    /// The content of the news item.
    pub content: String,
    /// Indicates whether the news item was created by an admin.
    pub created_by_admin: bool,
    /// The finish timestamp of the news item.
    pub finish: String,
    /// Indicates the priority of the news item.
    pub priority: bool,
    /// The ID of the author of the news item.
    pub author_id: i32,
    /// The URL of the author's image.
    pub author_image_url: String,
    /// The username of the author.
    pub username: String,
}

pub open spec fn attachment_of(a: NewsItemAttachment) -> Attachment {
    Attachment {
        id: a.id,
        file_type: a.file_type,
        is_image: a.is_image,
        name: a.name,
        original_file_name: a.original_file_name,
        ui_link: a.ui_link,
        url: a.url,
    }
}

/// The whole text of a news item: the first part, followed by the second
/// when there is one.
pub open spec fn content_of(first: Seq<char>, second: Option<Seq<char>>) -> Seq<char> {
    match second {
        Some(c) => first + c,
        None => first,
    }
}

pub open spec fn view_of_text(s: Option<String>) -> Option<Seq<char>> {
    match s {
        Some(c) => Some(c@),
        None => None,
    }
}

/// `n` holds the fields of the wire record `r` under their public names:
/// the two parts of the text joined, the attachments mapped in order.
pub open spec fn is_news_item_of(n: NewsItem, r: NewsItemRes) -> bool {
    &&& n.id == r.news_item_id
    &&& n.title == r.title
    &&& n.created_at == r.post_date_time
    &&& n.attachments@ == r.attachments@.map_values(|a: NewsItemAttachment| attachment_of(a))
    &&& n.communication_type == r.communication_type
    &&& n.content@ == content_of(r.content1@, view_of_text(r.content2))
    &&& n.created_by_admin == r.created_by_admin
    &&& n.finish == r.finish
    &&& n.priority == r.priority
    &&& n.author_id == r.user_id
    &&& n.author_image_url == r.user_image_url
    &&& n.username == r.username
}

/// The whole text of a news item from its two parts.
pub fn news_content(first: String, second: Option<String>) -> (r: String)
    ensures
        r@ == content_of(first@, view_of_text(second)),
{
    match second {
        Some(c) => first.concat(c.as_str()),
        None => first,
    }
}

pub fn attachments_from_rows(rows: Vec<NewsItemAttachment>) -> (r: Vec<Attachment>)
    ensures
        r@ == rows@.map_values(|a: NewsItemAttachment| attachment_of(a)),
{
    let mut out: Vec<Attachment> = Vec::new();
    for a in it: rows.into_iter()
        invariant
            it.seq() == rows@,
            out@ == rows@.take(it.index() as int).map_values(
                |a: NewsItemAttachment| attachment_of(a),
            ),
    {
        out.push(
            Attachment {
                id: a.id,
                file_type: a.file_type,
                is_image: a.is_image,
                name: a.name,
                original_file_name: a.original_file_name,
                ui_link: a.ui_link,
                url: a.url,
            },
        );
    }
    assert(rows@.take(rows@.len() as int) =~= rows@);
    out
}

/// The public form of one news item of the service.
pub fn news_item_from_row(r: NewsItemRes) -> (n: NewsItem)
    ensures
        is_news_item_of(n, r),
{
    let attachments = attachments_from_rows(r.attachments);
    let content = news_content(r.content1, r.content2);
    NewsItem {
        id: r.news_item_id,
        title: r.title,
        created_at: r.post_date_time,
        communication_type: r.communication_type,
        content,
        attachments,
        created_by_admin: r.created_by_admin,
        finish: r.finish,
        priority: r.priority,
        author_id: r.user_id,
        author_image_url: r.user_image_url,
        username: r.username,
    }
}

/// The items of a news feed, in the order the service sent them.
pub fn news_items_from_rows(rows: Vec<NewsItemRes>) -> (r: Vec<NewsItem>)
    ensures
        r.len() == rows.len(),
        forall|i: int| 0 <= i < rows.len() ==> is_news_item_of(#[trigger] r@[i], rows@[i]),
{
    let mut out: Vec<NewsItem> = Vec::new();
    for n in it: rows.into_iter()
        invariant
            it.seq() == rows@,
            out.len() == it.index(),
            forall|i: int| 0 <= i < out.len() ==> is_news_item_of(#[trigger] out@[i], rows@[i]),
    {
        out.push(news_item_from_row(n));
    }
    out
}

} // verus!

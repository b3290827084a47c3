use vstd::prelude::*;

use crate::block::{find_image, lookup_image, parse_uuid, render_all, render_blocks, uuid_parse, Block, Image};
use crate::clock::unix_now;
use crate::creator::CreatorRole;
use crate::error::{Error, STATUS_BAD_REQUEST, STATUS_UNAUTHORIZED};
use crate::session::Claims;

verus! {

/// The slug that the slug crate makes of a title.
pub uninterp spec fn slug_of(title: Seq<char>) -> Seq<char>;

/// Relies on slug::slugify: the result depends on the title alone.
#[verifier::external_body]
fn slugify(title: &str) -> (r: String)
    ensures
        r@ == slug_of(title@),
{
    slug::slugify(title)
}

/// The pieces of a text between semicolons, empty pieces included.
pub open spec fn split_semicolons(s: Seq<char>) -> Seq<Seq<char>>
    decreases s.len(),
{
    if s.len() == 0 {
        seq![Seq::empty()]
    } else {
        let prev = split_semicolons(s.drop_last());
        if s.last() == ';' {
            prev.push(Seq::empty())
        } else {
            prev.update(prev.len() - 1, prev.last().push(s.last()))
        }
    }
}

/// The tags that a semicolon-separated list names: none for an empty list.
pub open spec fn tags_of(s: Seq<char>) -> Seq<Seq<char>> {
    if s.len() == 0 {
        Seq::empty()
    } else {
        split_semicolons(s)
    }
}

proof fn lemma_split_nonempty(s: Seq<char>)
    ensures
        split_semicolons(s).len() >= 1,
    decreases s.len(),
{
    if s.len() > 0 {
        lemma_split_nonempty(s.drop_last());
    }
}

/// Splits a semicolon-separated list of tags.
pub fn parse_tags(s: &str) -> (r: Vec<String>)
    ensures
        r@.map_values(|t: String| t@) == tags_of(s@),
{
    let n = s.unicode_len();
    let mut tags: Vec<String> = Vec::new();
    if n == 0 {
        assert(tags@.map_values(|t: String| t@) =~= tags_of(s@));
        return tags;
    }
    let mut current = String::new();
    let mut i: usize = 0;
    assert(s@.subrange(0, 0) =~= Seq::<char>::empty());
    assert(tags@.map_values(|t: String| t@).push(current@) =~= split_semicolons(s@.subrange(0, 0)));
    while i < n
        invariant
            n == s@.len(),
            i <= n,
            tags@.map_values(|t: String| t@).push(current@) == split_semicolons(
                s@.subrange(0, i as int),
            ),
        decreases n - i,
    {
        let c = s.get_char(i);
        let ghost old_tags = tags@.map_values(|t: String| t@);
        let ghost old_current = current@;
        proof {
            lemma_split_nonempty(s@.subrange(0, i as int));
            assert(s@.subrange(0, i + 1).drop_last() =~= s@.subrange(0, i as int));
            assert(s@.subrange(0, i + 1).last() == c);
        }
        if c == ';' {
            tags.push(current);
            current = String::new();
            assert(tags@.map_values(|t: String| t@) =~= old_tags.push(old_current));
        } else {
            let piece = s.substring_char(i, i + 1);
            current.append(piece);
            assert(current@ =~= old_current.push(c));
            assert(old_tags.push(old_current).update(old_tags.len() as int, old_current.push(c))
                =~= old_tags.push(current@));
        }
        i += 1;
    }
    let ghost before = tags@.map_values(|t: String| t@);
    tags.push(current);
    assert(tags@.map_values(|t: String| t@) =~= before.push(current@));
    assert(s@.subrange(0, n as int) =~= s@);
    tags
}

/// How many tags a tag list shows: ten unless a limit is given.
pub fn tag_limit(limit: Option<i64>) -> (r: i64)
    ensures
        r == match limit {
            Some(n) => n,
            None => 10,
        },
{
    match limit {
        Some(n) => n,
        None => 10,
    }
}

/// The kind of a text.
#[derive(Debug, Clone, Copy, PartialEq, Eq, Structural)]
pub enum TextType {
    Article,
    Coverage,
    Opinion,
    Other,
}

/// The text type that a path segment names, in either capitalisation.
pub open spec fn text_type_named(s: Seq<char>) -> Option<TextType> {
    if s == "Article"@ || s == "article"@ {
        Some(TextType::Article)
    } else if s == "Coverage"@ || s == "coverage"@ {
        Some(TextType::Coverage)
    } else if s == "Opinion"@ || s == "opinion"@ {
        Some(TextType::Opinion)
    } else if s == "Other"@ || s == "other"@ {
        Some(TextType::Other)
    } else {
        None
    }
}

fn same_text(a: &str, b: &str) -> (r: bool)
    ensures
        r == (a@ == b@),
{
    a.to_string() == b.to_string()
}

impl TextType {
    /// Reads a text type from a path segment.
    pub fn from_param(param: &str) -> (r: Result<TextType, Error>)
        ensures
            r matches Ok(t) ==> text_type_named(param@) == Some(t),
            r is Err ==> text_type_named(param@) is None,
            r matches Err(e) ==> e.status == STATUS_BAD_REQUEST && e.err_string@ == param@
                + " is not a valid TextType"@,
    {
        if same_text(param, "Article") || same_text(param, "article") {
            Ok(TextType::Article)
        } else if same_text(param, "Coverage") || same_text(param, "coverage") {
            Ok(TextType::Coverage)
        } else if same_text(param, "Opinion") || same_text(param, "opinion") {
            Ok(TextType::Opinion)
        } else if same_text(param, "Other") || same_text(param, "other") {
            Ok(TextType::Other)
        } else {
            let mut msg = param.to_string();
            msg.append(" is not a valid TextType");
            Err(Error::create("FromParam for Textformat", msg.as_str(), STATUS_BAD_REQUEST))
        }
    }
}

/// An article: its metadata, its body of blocks, and where it is in its
/// lifecycle (a draft, done, or published).
#[derive(Debug)]
pub struct Text {
    pub id: i32,
    pub title: String,
    /// Always the slug of `title`.
    pub title_slug: String,
    /// Username of the creator who wrote it.
    pub author: String,
    /// Id of the image used as the thumbnail.
    pub thumbnail_id: Option<u128>,
    pub lead_paragraph: String,
    pub text_body: Vec<Block>,
    pub text_type: TextType,
    /// Seconds since the Unix epoch.
    pub created_at: i64,
    /// Seconds since the Unix epoch.
    pub updated_at: i64,
    pub tags: Vec<String>,
    pub is_published: bool,
    pub marked_as_done: bool,
}

/// Why a change to a text was refused.
#[derive(Debug, Clone, Copy, PartialEq, Eq, Structural)]
pub enum TextError {
    /// Only the author or a publisher may edit a text.
    NotOwner,
    /// Only a publisher may edit a published text.
    PublishedNeedsPublisher,
    /// Only a publisher may change whether a text is published.
    NotPublisher,
    /// Only the author may change whether a text is done.
    NotAuthor,
    /// The text is already marked as done.
    AlreadyDone,
    /// The text is not marked as done, or it is published.
    CannotUnmark,
}

pub open spec fn text_error_message(e: TextError) -> Seq<char> {
    match e {
        TextError::NotOwner => "Must be owner of text or publisher to edit!"@,
        TextError::PublishedNeedsPublisher => "Cannot edit published text if not publisher!"@,
        TextError::NotPublisher => "Must be `Publisher` to set publish status!"@,
        TextError::NotAuthor => "Only the author can change done status!"@,
        TextError::AlreadyDone => "Text is already marked as done!"@,
        TextError::CannotUnmark => "Only a done, unpublished text can be unmarked as done!"@,
    }
}

impl TextError {
    /// The message shown to the user.
    pub fn message(&self) -> (r: &'static str)
        ensures
            r@ == text_error_message(*self),
    {
        match self {
            TextError::NotOwner => "Must be owner of text or publisher to edit!",
            TextError::PublishedNeedsPublisher => "Cannot edit published text if not publisher!",
            TextError::NotPublisher => "Must be `Publisher` to set publish status!",
            TextError::NotAuthor => "Only the author can change done status!",
            TextError::AlreadyDone => "Text is already marked as done!",
            TextError::CannotUnmark => "Only a done, unpublished text can be unmarked as done!",
        }
    }

    /// Every refusal is an authorization failure.
    pub fn into_error(&self) -> (r: Error)
        ensures
            r.status == STATUS_UNAUTHORIZED,
            r.err_string@ == text_error_message(*self),
    {
        Error::create("Text lifecycle", self.message(), STATUS_UNAUTHORIZED)
    }
}

/// The contents of an edit: every field an author may change.
#[derive(Debug)]
pub struct TextEdit {
    pub title: String,
    pub thumbnail_id: Option<u128>,
    pub lead_paragraph: String,
    pub text_body: Vec<Block>,
    pub text_type: TextType,
    pub tags: Vec<String>,
    /// The requested publish status; `None` keeps the current one.
    pub publish: Option<bool>,
}

/// Whether a text may be published on creation: only on a publisher's
/// request.
pub open spec fn publish_on_create(requested: Option<bool>, admin: bool) -> bool {
    admin && requested == Some(true)
}

/// The publish status after an edit: a publisher sets it (keeping it where
/// nothing is requested); anyone else leaves it as it was.
pub open spec fn published_after_edit(current: bool, admin: bool, requested: Option<bool>) -> bool {
    if admin {
        match requested {
            Some(p) => p,
            None => current,
        }
    } else {
        current
    }
}

/// Why an edit of a text by an actor is refused, if it is.
pub open spec fn edit_refusal(t: Text, actor: Claims) -> Option<TextError> {
    if t.author@ != actor.sub@ && !actor.admin {
        Some(TextError::NotOwner)
    } else if t.is_published && !actor.admin {
        Some(TextError::PublishedNeedsPublisher)
    } else {
        None
    }
}

/// Why marking a text as done, or unmarking it, is refused, if it is.
pub open spec fn done_refusal(t: Text, actor: Claims, done: bool) -> Option<TextError> {
    if t.author@ != actor.data.username@ {
        Some(TextError::NotAuthor)
    } else if done && t.marked_as_done {
        Some(TextError::AlreadyDone)
    } else if !done && (!t.marked_as_done || t.is_published) {
        Some(TextError::CannotUnmark)
    } else {
        None
    }
}

/// What a viewer may do with a text, as the text's page offers it.
#[derive(Debug)]
pub struct TextPermissions {
    pub can_edit_text: bool,
    pub can_mark_as_done: bool,
    pub can_unmark_as_done: bool,
    pub can_publish_text: bool,
    pub can_unpublish_text: bool,
}

impl Text {
    /// The slug is always that of the title.
    pub open spec fn wf(&self) -> bool {
        self.title_slug@ == slug_of(self.title@)
    }

    /// An unpublished draft, not done, created now, whose slug is that of
    /// its title.
    pub fn create(
        title: &str,
        author: &str,
        lead_paragraph: &str,
        text_body: Vec<Block>,
        text_type: TextType,
        tags: Vec<String>,
    ) -> (r: Text)
        ensures
            r.title@ == title@,
            r.title_slug@ == slug_of(title@),
            r.wf(),
            r.author@ == author@,
            r.thumbnail_id is None,
            r.lead_paragraph@ == lead_paragraph@,
            r.text_body@ == text_body@,
            r.text_type == text_type,
            r.tags@ == tags@,
            !r.is_published,
            !r.marked_as_done,
    {
        let now = unix_now();
        Text {
            id: 0,
            title: title.to_string(),
            title_slug: slugify(title),
            author: author.to_string(),
            thumbnail_id: None,
            lead_paragraph: lead_paragraph.to_string(),
            text_body,
            text_type,
            created_at: now,
            updated_at: now,
            tags,
            is_published: false,
            marked_as_done: false,
        }
    }

    /// A new text written by the actor's account. It is done as the actor says; it is
    /// published only where a publisher asks for it, and a writer's request
    /// to publish is ignored.
    pub fn create_by(
        actor: &Claims,
        title: &str,
        lead_paragraph: &str,
        text_body: Vec<Block>,
        text_type: TextType,
        tags: Vec<String>,
        publish: Option<bool>,
        marked_as_done: bool,
    ) -> (r: Text)
        ensures
            r.title@ == title@,
            r.title_slug@ == slug_of(title@),
            r.wf(),
            r.author@ == actor.data.username@,
            r.thumbnail_id is None,
            r.lead_paragraph@ == lead_paragraph@,
            r.text_body@ == text_body@,
            r.text_type == text_type,
            r.tags@ == tags@,
            r.is_published == publish_on_create(publish, actor.admin),
            r.marked_as_done == marked_as_done,
    {
        let mut t = Text::create(
            title,
            actor.data.username.as_str(),
            lead_paragraph,
            text_body,
            text_type,
            tags,
        );
        t.is_published = actor.admin && match publish {
            Some(p) => p,
            None => false,
        };
        t.marked_as_done = marked_as_done;
        t
    }

    /// Changes the title; the slug follows it.
    pub fn set_title(&mut self, title: &str)
        ensures
            final(self).title@ == title@,
            final(self).title_slug@ == slug_of(title@),
            final(self).wf(),
            final(self).id == old(self).id,
            final(self).author == old(self).author,
            final(self).thumbnail_id == old(self).thumbnail_id,
            final(self).lead_paragraph == old(self).lead_paragraph,
            final(self).text_body == old(self).text_body,
            final(self).text_type == old(self).text_type,
            final(self).tags == old(self).tags,
            final(self).is_published == old(self).is_published,
            final(self).marked_as_done == old(self).marked_as_done,
            final(self).created_at == old(self).created_at,
            final(self).updated_at == old(self).updated_at,
    {
        self.title = title.to_string();
        self.title_slug = slugify(title);
    }

    /// Edits the text for an actor. Only the author or a publisher may edit,
    /// and only a publisher may edit a published text; on a refusal nothing
    /// changes. A writer cannot change the publish status; a publisher sets
    /// it as requested. The slug is recomputed from the new title.
    pub fn edit(&mut self, actor: &Claims, edit: TextEdit) -> (r: Result<(), TextError>)
        ensures
            old(self).wf() ==> final(self).wf(),
            edit_refusal(*old(self), *actor) matches Some(e) ==> r == Err::<(), TextError>(e)
                && *final(self) == *old(self),
            edit_refusal(*old(self), *actor) is None ==> {
                &&& r is Ok
                &&& final(self).title@ == edit.title@
                &&& final(self).title_slug@ == slug_of(edit.title@)
                &&& final(self).thumbnail_id == edit.thumbnail_id
                &&& final(self).lead_paragraph == edit.lead_paragraph
                &&& final(self).text_body == edit.text_body
                &&& final(self).text_type == edit.text_type
                &&& final(self).tags == edit.tags
                &&& final(self).is_published == published_after_edit(
                    old(self).is_published,
                    actor.admin,
                    edit.publish,
                )
                &&& final(self).id == old(self).id
                &&& final(self).author == old(self).author
                &&& final(self).marked_as_done == old(self).marked_as_done
                &&& final(self).created_at == old(self).created_at
                &&& final(self).updated_at == old(self).updated_at
            },
    {
        let is_author = self.author == actor.sub;
        if !is_author && !actor.admin {
            return Err(TextError::NotOwner);
        }
        if self.is_published && !actor.admin {
            return Err(TextError::PublishedNeedsPublisher);
        }
        let publish = if actor.admin {
            match edit.publish {
                Some(p) => p,
                None => self.is_published,
            }
        } else {
            self.is_published
        };
        self.set_title(edit.title.as_str());
        self.thumbnail_id = edit.thumbnail_id;
        self.lead_paragraph = edit.lead_paragraph;
        self.text_body = edit.text_body;
        self.text_type = edit.text_type;
        self.tags = edit.tags;
        self.is_published = publish;
        Ok(())
    }

    /// Publishes or unpublishes the text; only a publisher may.
    pub fn set_publish_status(&mut self, executor: &Claims, status: bool) -> (r: Result<
        (),
        TextError,
    >)
        ensures
            old(self).wf() ==> final(self).wf(),
            executor.data.role == CreatorRole::Publisher ==> r is Ok && *final(self) == (Text {
                is_published: status,
                ..*old(self)
            }),
            executor.data.role != CreatorRole::Publisher ==> r == Err::<(), TextError>(
                TextError::NotPublisher,
            ) && *final(self) == *old(self),
    {
        if !executor.data.is_publisher() {
            return Err(TextError::NotPublisher);
        }
        self.is_published = status;
        Ok(())
    }

    /// Marks the text as done (`true`) or not done (`false`). Only the author
    /// may; a text is marked only when it is not done yet, and unmarked only
    /// when it is done and not published.
    pub fn set_done_status(&mut self, executor: &Claims, status: bool) -> (r: Result<
        (),
        TextError,
    >)
        ensures
            old(self).wf() ==> final(self).wf(),
            done_refusal(*old(self), *executor, status) matches Some(e) ==> r == Err::<
                (),
                TextError,
            >(e) && *final(self) == *old(self),
            done_refusal(*old(self), *executor, status) is None ==> r is Ok && *final(self) == (
            Text { marked_as_done: status, ..*old(self) }),
    {
        let is_author = self.author == executor.data.username;
        if !is_author {
            return Err(TextError::NotAuthor);
        }
        if status && self.marked_as_done {
            return Err(TextError::AlreadyDone);
        }
        if !status && (!self.marked_as_done || self.is_published) {
            return Err(TextError::CannotUnmark);
        }
        self.marked_as_done = status;
        Ok(())
    }

    /// Marks the text as done.
    pub fn mark_done(&mut self, executor: &Claims) -> (r: Result<(), TextError>)
        ensures
            old(self).wf() ==> final(self).wf(),
            done_refusal(*old(self), *executor, true) matches Some(e) ==> r == Err::<(), TextError>(
                e,
            ) && *final(self) == *old(self),
            done_refusal(*old(self), *executor, true) is None ==> r is Ok && *final(self) == (Text {
                marked_as_done: true,
                ..*old(self)
            }),
    {
        self.set_done_status(executor, true)
    }

    /// Takes back the done mark.
    pub fn unmark_done(&mut self, executor: &Claims) -> (r: Result<(), TextError>)
        ensures
            old(self).wf() ==> final(self).wf(),
            done_refusal(*old(self), *executor, false) matches Some(e) ==> r == Err::<(), TextError>(
                e,
            ) && *final(self) == *old(self),
            done_refusal(*old(self), *executor, false) is None ==> r is Ok && *final(self) == (
            Text { marked_as_done: false, ..*old(self) }),
    {
        self.set_done_status(executor, false)
    }

    /// The text's HTML: its blocks in order, each failed one as the
    /// placeholder.
    pub fn render_body(&self, images: &Vec<Image>) -> (r: String)
        ensures
            r@ == render_all(self.text_body@, images@),
    {
        render_blocks(&self.text_body, images)
    }

    /// Whether a request for the text under another slug must be redirected
    /// to its own.
    pub fn needs_redirect(&self, title_slug: &str) -> (r: bool)
        ensures
            r == (title_slug@ != self.title_slug@),
    {
        !same_text(title_slug, self.title_slug.as_str())
    }

    /// Whether a visitor may see the text: a published one anyone may, an
    /// unpublished one only a logged-in creator.
    pub fn visible_to(&self, logged_in: bool) -> (r: bool)
        ensures
            r == (self.is_published || logged_in),
    {
        self.is_published || logged_in
    }

    /// What a viewer may do with the text. Without a session, nothing.
    pub fn permissions(&self, viewer: Option<&Claims>) -> (r: TextPermissions)
        ensures
            viewer is None ==> !r.can_edit_text && !r.can_mark_as_done && !r.can_unmark_as_done
                && !r.can_publish_text && !r.can_unpublish_text,
            viewer matches Some(c) ==> {
                let publisher = c.data.role == CreatorRole::Publisher;
                let author = c.sub@ == self.author@;
                &&& r.can_edit_text == (publisher || (author && !self.is_published))
                &&& r.can_mark_as_done == (!self.marked_as_done && author)
                &&& r.can_unmark_as_done == (!self.is_published && self.marked_as_done && author)
                &&& r.can_publish_text == (publisher && !self.is_published)
                &&& r.can_unpublish_text == (publisher && self.is_published)
            },
    {
        match viewer {
            None => TextPermissions {
                can_edit_text: false,
                can_mark_as_done: false,
                can_unmark_as_done: false,
                can_publish_text: false,
                can_unpublish_text: false,
            },
            Some(c) => {
                let publisher = c.data.is_publisher();
                let author = c.sub == self.author;
                TextPermissions {
                    can_edit_text: publisher || (author && !self.is_published),
                    can_mark_as_done: !self.marked_as_done && author,
                    can_unmark_as_done: !self.is_published && self.marked_as_done && author,
                    can_publish_text: publisher && !self.is_published,
                    can_unpublish_text: publisher && self.is_published,
                }
            },
        }
    }
}

/// A text as the editor sends it, to save a new text or to edit one.
#[derive(Debug)]
pub struct SaveOrEditText {
    /// Set only when editing.
    pub text_id: Option<i32>,
    pub text_type: TextType,
    pub title: String,
    /// Id of the thumbnail image, as text; anything else means none.
    pub thumbnail: String,
    pub leading_paragraph: String,
    pub blocks: Vec<Block>,
    /// Semicolon-separated.
    pub tags: String,
    pub publish: Option<bool>,
    pub marked_as_done: bool,
}

/// The thumbnail that an edit refers to: an image the store holds, by id.
pub open spec fn thumbnail_of(thumbnail: Seq<char>, images: Seq<Image>) -> Option<u128> {
    match uuid_parse(thumbnail) {
        Some(u) => match find_image(images, u) {
            Some(img) => Some(img.id),
            None => None,
        },
        None => None,
    }
}

/// The id of the thumbnail, where the text names an image that the store
/// holds; otherwise no thumbnail.
pub fn resolve_thumbnail(thumbnail: &str, images: &Vec<Image>) -> (r: Option<u128>)
    ensures
        r == thumbnail_of(thumbnail@, images@),
{
    match parse_uuid(thumbnail) {
        Some(u) => match lookup_image(images, u) {
            Some(k) => Some(images[k].id),
            None => None,
        },
        None => None,
    }
}

impl SaveOrEditText {
    /// The id of the text to edit; an edit request without one is malformed.
    pub fn text_id(&self) -> (r: Result<i32, Error>)
        ensures
            self.text_id matches Some(id) ==> r == Ok::<i32, Error>(id),
            self.text_id is None ==> (r matches Err(e) && e.status == STATUS_BAD_REQUEST),
    {
        match self.text_id {
            Some(id) => Ok(id),
            None => Err(
                Error::create(
                    "Text request",
                    "Field `text-id` (`text_id`) not specified!",
                    STATUS_BAD_REQUEST,
                ),
            ),
        }
    }

    /// The new text that saving this request makes, written by the actor.
    pub fn into_text(self, actor: &Claims) -> (r: Text)
        ensures
            r.title@ == self.title@,
            r.title_slug@ == slug_of(self.title@),
            r.author@ == actor.data.username@,
            r.lead_paragraph@ == self.leading_paragraph@,
            r.text_body@ == self.blocks@,
            r.text_type == self.text_type,
            r.tags@.map_values(|t: String| t@) == tags_of(self.tags@),
            r.is_published == publish_on_create(self.publish, actor.admin),
            r.marked_as_done == self.marked_as_done,
    {
        let tags = parse_tags(self.tags.as_str());
        Text::create_by(
            actor,
            self.title.as_str(),
            self.leading_paragraph.as_str(),
            self.blocks,
            self.text_type,
            tags,
            self.publish,
            self.marked_as_done,
        )
    }

    /// The edit that this request asks for. The thumbnail is kept only where
    /// it names an image among `images`, those that the store returned.
    pub fn into_edit(self, images: &Vec<Image>) -> (r: TextEdit)
        ensures
            r.title == self.title,
            r.thumbnail_id == thumbnail_of(self.thumbnail@, images@),
            r.lead_paragraph == self.leading_paragraph,
            r.text_body == self.blocks,
            r.text_type == self.text_type,
            r.tags@.map_values(|t: String| t@) == tags_of(self.tags@),
            r.publish == self.publish,
    {
        let thumbnail_id = resolve_thumbnail(self.thumbnail.as_str(), images);
        let tags = parse_tags(self.tags.as_str());
        TextEdit {
            title: self.title,
            thumbnail_id,
            lead_paragraph: self.leading_paragraph,
            text_body: self.blocks,
            text_type: self.text_type,
            tags,
            publish: self.publish,
        }
    }
}

/// A writer cannot publish their own unpublished text by editing it: the
/// edit is allowed, and whatever publish status it requests, the text stays
/// unpublished.
pub proof fn lemma_writer_edit_keeps_unpublished(t: Text, actor: Claims, requested: Option<bool>)
    requires
        t.author@ == actor.sub@,
        !actor.admin,
        !t.is_published,
    ensures
        edit_refusal(t, actor) is None,
        !published_after_edit(t.is_published, actor.admin, requested),
{
}

/// A publisher may edit any text, and the edit sets the publish status to the
/// one requested.
pub proof fn lemma_publisher_edit_sets_status(t: Text, actor: Claims, requested: bool)
    requires
        actor.admin,
    ensures
        edit_refusal(t, actor) is None,
        published_after_edit(t.is_published, actor.admin, Some(requested)) == requested,
{
}

} // verus!

use blockpress::access::{authorize_account_action, authorize_publisher, AccountAction};
use blockpress::block::{Block, Image};
use blockpress::creator::{Creator, CreatorRole};
use blockpress::page::SaveOrEditPage;
use blockpress::session::Claims;
use blockpress::text::{parse_tags, SaveOrEditText, Text, TextEdit, TextError, TextType};

fn claims_for(username: &str, role: CreatorRole) -> Claims {
    let c = Creator {
        display_name: username.to_string(),
        username: username.to_string(),
        password: "h".to_string(),
        biography: "".to_string(),
        joined_at: 0,
        role,
    };
    Claims::issue(&c, 0)
}

fn draft(author: &str) -> Text {
    let mut t = Text::create("Old Title", author, "Lead", vec![], TextType::Article, vec![]);
    t.id = 5;
    t
}

fn edit_request(text_id: i32, publish: Option<bool>) -> SaveOrEditText {
    SaveOrEditText {
        text_id: Some(text_id),
        text_type: TextType::Opinion,
        title: "New Title!".to_string(),
        thumbnail: "".to_string(),
        leading_paragraph: "New lead".to_string(),
        blocks: vec![Block::Heading { heading: "H".to_string() }],
        tags: "a;b".to_string(),
        publish,
        marked_as_done: false,
    }
}

#[test]
fn writer_cannot_publish_by_editing() {
    let writer = claims_for("writer", CreatorRole::Writer);
    let mut t = draft("writer");
    let req = edit_request(5, Some(true));
    assert_eq!(req.text_id().unwrap(), 5);
    t.edit(&writer, req.into_edit(&vec![])).unwrap();
    assert!(!t.is_published);
    assert_eq!(t.id, 5);
}

#[test]
fn publisher_publishes_by_editing() {
    let publisher = claims_for("boss", CreatorRole::Publisher);
    let mut t = draft("writer");
    t.edit(&publisher, edit_request(5, Some(true)).into_edit(&vec![])).unwrap();
    assert!(t.is_published);
    t.edit(&publisher, edit_request(5, None).into_edit(&vec![])).unwrap();
    assert!(t.is_published);
}

#[test]
fn edit_recomputes_slug() {
    let writer = claims_for("writer", CreatorRole::Writer);
    let mut t = draft("writer");
    assert_eq!(t.title_slug, "old-title");
    t.edit(&writer, edit_request(5, None).into_edit(&vec![])).unwrap();
    assert_eq!(t.title, "New Title!");
    assert_eq!(t.title_slug, "new-title");
    assert_eq!(t.tags, vec!["a".to_string(), "b".to_string()]);
    assert_eq!(t.text_type, TextType::Opinion);
    t.set_title("Katter och hundar");
    assert_eq!(t.title_slug, "katter-och-hundar");
}

#[test]
fn only_owner_or_publisher_edits() {
    let other = claims_for("other", CreatorRole::Writer);
    let mut t = draft("writer");
    let err = t.edit(&other, edit_request(5, None).into_edit(&vec![])).unwrap_err();
    assert_eq!(err, TextError::NotOwner);
    assert_eq!(t.title, "Old Title");
    assert_eq!(err.into_error().status, 401);
}

#[test]
fn published_text_needs_publisher() {
    let writer = claims_for("writer", CreatorRole::Writer);
    let mut t = draft("writer");
    t.is_published = true;
    let err = t.edit(&writer, edit_request(5, None).into_edit(&vec![])).unwrap_err();
    assert_eq!(err, TextError::PublishedNeedsPublisher);
    assert_eq!(err.message(), "Cannot edit published text if not publisher!");
}

#[test]
fn edit_without_id_is_bad_request() {
    let mut req = edit_request(5, None);
    req.text_id = None;
    assert_eq!(req.text_id().unwrap_err().status, 400);
}

#[test]
fn thumbnail_must_exist() {
    let writer = claims_for("writer", CreatorRole::Writer);
    let img = Image {
        id: 7,
        author: "a".to_string(),
        description: None,
        created_at: 0,
        tags: vec![],
    };
    let mut req = edit_request(5, None);
    req.thumbnail = "00000000-0000-0000-0000-000000000007".to_string();
    let mut t = draft("writer");
    t.edit(&writer, req.into_edit(&vec![img])).unwrap();
    assert_eq!(t.thumbnail_id, Some(7));
    let mut req = edit_request(5, None);
    req.thumbnail = "00000000-0000-0000-0000-000000000008".to_string();
    t.edit(&writer, req.into_edit(&vec![])).unwrap();
    assert_eq!(t.thumbnail_id, None);
}

#[test]
fn save_request_publishes_only_for_publisher() {
    let writer = claims_for("writer", CreatorRole::Writer);
    let publisher = claims_for("boss", CreatorRole::Publisher);
    let mut req = edit_request(5, Some(true));
    req.marked_as_done = true;
    let t = req.into_text(&writer);
    assert!(!t.is_published);
    assert!(t.marked_as_done);
    assert_eq!(t.author, "writer");
    assert_eq!(t.title_slug, "new-title");
    let t = edit_request(5, Some(true)).into_text(&publisher);
    assert!(t.is_published);
    let t = edit_request(5, None).into_text(&publisher);
    assert!(!t.is_published);
}

#[test]
fn done_marks_follow_the_rules() {
    let writer = claims_for("writer", CreatorRole::Writer);
    let publisher = claims_for("boss", CreatorRole::Publisher);
    let mut t = draft("writer");
    assert_eq!(t.unmark_done(&writer).unwrap_err(), TextError::CannotUnmark);
    assert_eq!(t.mark_done(&publisher).unwrap_err(), TextError::NotAuthor);
    t.mark_done(&writer).unwrap();
    assert!(t.marked_as_done);
    assert_eq!(t.mark_done(&writer).unwrap_err(), TextError::AlreadyDone);
    t.set_publish_status(&publisher, true).unwrap();
    assert_eq!(t.unmark_done(&writer).unwrap_err(), TextError::CannotUnmark);
    t.set_publish_status(&publisher, false).unwrap();
    t.set_done_status(&writer, false).unwrap();
    assert!(!t.marked_as_done);
}

#[test]
fn only_publisher_sets_publish_status() {
    let writer = claims_for("writer", CreatorRole::Writer);
    let mut t = draft("writer");
    assert_eq!(t.set_publish_status(&writer, true).unwrap_err(), TextError::NotPublisher);
    assert!(!t.is_published);
}

#[test]
fn permissions_of_viewers() {
    let writer = claims_for("writer", CreatorRole::Writer);
    let publisher = claims_for("boss", CreatorRole::Publisher);
    let t = draft("writer");
    let none = t.permissions(None);
    assert!(!none.can_edit_text && !none.can_mark_as_done && !none.can_publish_text);
    let w = t.permissions(Some(&writer));
    assert!(w.can_edit_text && w.can_mark_as_done && !w.can_unmark_as_done && !w.can_publish_text);
    let p = t.permissions(Some(&publisher));
    assert!(p.can_edit_text && !p.can_mark_as_done && p.can_publish_text && !p.can_unpublish_text);
    assert!(t.needs_redirect("wrong-slug"));
    assert!(!t.needs_redirect("old-title"));
    assert!(!t.visible_to(false));
    assert!(t.visible_to(true));
}

#[test]
fn tags_split_on_semicolons() {
    assert!(parse_tags("").is_empty());
    assert_eq!(parse_tags("katt"), vec!["katt".to_string()]);
    assert_eq!(parse_tags("a;b;c"), vec!["a".to_string(), "b".to_string(), "c".to_string()]);
    assert_eq!(parse_tags("a;"), vec!["a".to_string(), "".to_string()]);
    assert_eq!(parse_tags(";"), vec!["".to_string(), "".to_string()]);
}

#[test]
fn text_types_from_path() {
    assert_eq!(TextType::from_param("article").unwrap(), TextType::Article);
    assert_eq!(TextType::from_param("Coverage").unwrap(), TextType::Coverage);
    assert_eq!(TextType::from_param("opinion").unwrap(), TextType::Opinion);
    assert_eq!(TextType::from_param("Other").unwrap(), TextType::Other);
    let e = TextType::from_param("poem").unwrap_err();
    assert_eq!(e.status, 400);
    assert_eq!(e.err_string, "poem is not a valid TextType");
}

#[test]
fn direct_edit_keeps_author() {
    let publisher = claims_for("boss", CreatorRole::Publisher);
    let mut t = draft("writer");
    let edit = TextEdit {
        title: "T".to_string(),
        thumbnail_id: None,
        lead_paragraph: "L".to_string(),
        text_body: vec![],
        text_type: TextType::Other,
        tags: vec![],
        publish: Some(false),
    };
    t.edit(&publisher, edit).unwrap();
    assert_eq!(t.author, "writer");
    assert_eq!(t.title_slug, "t");
}

#[test]
fn account_actions_need_publisher() {
    let writer = claims_for("writer", CreatorRole::Writer);
    let boss = claims_for("boss", CreatorRole::Publisher);
    let e = authorize_account_action(&writer, AccountAction::Promote, "x").unwrap_err();
    assert_eq!(e.status, 403);
    assert!(authorize_account_action(&boss, AccountAction::Promote, "boss").is_ok());
    let e = authorize_account_action(&boss, AccountAction::Demote, "boss").unwrap_err();
    assert_eq!(e.err_string, "Sorry, you can't revoke your own admin access!");
    let e = authorize_account_action(&boss, AccountAction::Lock, "boss").unwrap_err();
    assert_eq!(e.err_string, "Sorry, you can't lock your own account!");
    assert!(authorize_account_action(&boss, AccountAction::Lock, "writer").is_ok());
    assert_eq!(authorize_publisher(&writer).unwrap_err().status, 401);
    assert!(authorize_publisher(&boss).is_ok());
}

#[test]
fn page_requests() {
    let writer = claims_for("writer", CreatorRole::Writer);
    let boss = claims_for("boss", CreatorRole::Publisher);
    let req = SaveOrEditPage { old_path: None, path: "/om".to_string(), title: "Om".to_string(), blocks: vec![] };
    assert_eq!(req.check_save(&writer).unwrap_err().status, 401);
    assert_eq!(req.check_save(&boss).unwrap_err().status, 400);
    let req = SaveOrEditPage { old_path: None, path: "om".to_string(), title: "Om".to_string(), blocks: vec![] };
    assert!(req.check_save(&boss).is_ok());
    assert_eq!(req.check_edit(&boss).unwrap_err().status, 400);
    let req = SaveOrEditPage { old_path: Some("gammal".to_string()), path: "om".to_string(), title: "Om".to_string(), blocks: vec![] };
    assert_eq!(req.check_edit(&boss).unwrap(), "gammal");
    let page = req.into_page();
    assert_eq!(page.path, "om");
    assert_eq!(page.render_body(&vec![]), "");
}

#[test]
fn tag_limit_defaults_to_ten() {
    assert_eq!(blockpress::text::tag_limit(None), 10);
    assert_eq!(blockpress::text::tag_limit(Some(3)), 3);
}

#[test]
fn author_is_the_account_username() {
    let mut claims = claims_for("writer", CreatorRole::Writer);
    claims.sub = "not-the-account".to_string();
    let t = edit_request(5, None).into_text(&claims);
    assert_eq!(t.author, "writer");
    let mut t = draft("not-the-account");
    assert_eq!(t.mark_done(&claims).unwrap_err(), TextError::NotAuthor);
    assert!(!t.marked_as_done);
}

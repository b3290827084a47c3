use vstd::prelude::*;

use crate::access::authorize_publisher;
use crate::block::{render_all, render_blocks, Block, Image};
use crate::error::{Error, STATUS_BAD_REQUEST, STATUS_UNAUTHORIZED};
use crate::session::Claims;

verus! {

/// A static page of blocks, found by its path.
#[derive(Debug)]
pub struct Page {
    /// Relative: it does not start with a slash.
    pub path: String,
    pub title: String,
    pub text_body: Vec<Block>,
}

/// A page as the editor sends it, to save a new page or to edit one.
#[derive(Debug)]
pub struct SaveOrEditPage {
    /// The path of the page to edit; set only when editing.
    pub old_path: Option<String>,
    pub path: String,
    pub title: String,
    pub blocks: Vec<Block>,
}

pub open spec fn starts_with_slash(s: Seq<char>) -> bool {
    s.len() > 0 && s[0] == '/'
}

impl Page {
    pub fn create(path: &str, title: &str, text_body: Vec<Block>) -> (r: Page)
        ensures
            r.path@ == path@,
            r.title@ == title@,
            r.text_body@ == text_body@,
    {
        Page { path: path.to_string(), title: title.to_string(), text_body }
    }

    /// The page's HTML: its blocks in order, each failed one as the
    /// placeholder.
    pub fn render_body(&self, images: &Vec<Image>) -> (r: String)
        ensures
            r@ == render_all(self.text_body@, images@),
    {
        render_blocks(&self.text_body, images)
    }
}

impl SaveOrEditPage {
    fn check_path(&self) -> (r: Result<(), Error>)
        ensures
            r is Ok <==> !starts_with_slash(self.path@),
            r matches Err(e) ==> e.status == STATUS_BAD_REQUEST,
    {
        if self.path.as_str().unicode_len() > 0 && self.path.as_str().get_char(0) == '/' {
            return Err(
                Error::create(
                    "Page request",
                    "Field `path` should not start with a slash!",
                    STATUS_BAD_REQUEST,
                ),
            );
        }
        Ok(())
    }

    /// Checks a request to save a new page: only a publisher may, and the
    /// path must not start with a slash.
    pub fn check_save(&self, claims: &Claims) -> (r: Result<(), Error>)
        ensures
            r is Ok <==> claims.admin && !starts_with_slash(self.path@),
            !claims.admin ==> (r matches Err(e) && e.status == STATUS_UNAUTHORIZED),
            claims.admin && starts_with_slash(self.path@) ==> (r matches Err(e) && e.status
                == STATUS_BAD_REQUEST),
    {
        authorize_publisher(claims)?;
        self.check_path()
    }

    /// Checks a request to edit a page, as `check_save` does, and gives the
    /// path of the page to edit, which the request must name.
    pub fn check_edit(&self, claims: &Claims) -> (r: Result<String, Error>)
        ensures
            r is Ok <==> claims.admin && !starts_with_slash(self.path@) && self.old_path is Some,
            r matches Ok(p) ==> p@ == self.old_path.unwrap()@,
            !claims.admin ==> (r matches Err(e) && e.status == STATUS_UNAUTHORIZED),
            claims.admin && !(!starts_with_slash(self.path@) && self.old_path is Some) ==> (r matches Err(e)
                && e.status == STATUS_BAD_REQUEST),
    {
        self.check_save(claims)?;
        match &self.old_path {
            Some(p) => Ok(p.clone()),
            None => Err(
                Error::create(
                    "Page request",
                    "Field `old_path` (`old_path`) not specified!",
                    STATUS_BAD_REQUEST,
                ),
            ),
        }
    }

    /// The page that this request saves.
    pub fn into_page(self) -> (r: Page)
        ensures
            r.path == self.path,
            r.title == self.title,
            r.text_body == self.blocks,
    {
        Page { path: self.path, title: self.title, text_body: self.blocks }
    }
}

} // verus!

//! Comments.

use crate::schema::Comment;
use crate::uid::Uid;
use vstd::prelude::*;

verus! {

/// Describes a comment before it is built.
#[derive(Debug, Clone, PartialEq, Eq)]
pub struct CommentBuilder {
    pub block_uid: Option<Uid>,
    pub x: Option<i64>,
    pub y: Option<i64>,
    pub width: u64,
    pub height: u64,
    pub minimized: bool,
    pub content: String,
}

impl CommentBuilder {
    /// A comment with the given text: at the origin, 200 by 200, open, and
    /// attached to no node.
    pub fn new(content: &str) -> (b: CommentBuilder)
        ensures
            b.content@ == content@,
            b.block_uid is None,
            b.x == Some(0i64),
            b.y == Some(0i64),
            b.width == 200,
            b.height == 200,
            !b.minimized,
    {
        CommentBuilder {
            block_uid: None,
            x: Some(0),
            y: Some(0),
            width: 200,
            height: 200,
            minimized: false,
            content: content.to_owned(),
        }
    }

    /// Places the comment.
    pub fn pos(self, x: i64, y: i64) -> (b: CommentBuilder)
        ensures
            b == (CommentBuilder { x: Some(x), y: Some(y), ..self }),
    {
        let mut b = self;
        b.x = Some(x);
        b.y = Some(y);
        b
    }

    /// Sets the comment's width and height.
    pub fn size(self, width: u64, height: u64) -> (b: CommentBuilder)
        ensures
            b == (CommentBuilder { width, height, ..self }),
    {
        let mut b = self;
        b.width = width;
        b.height = height;
        b
    }

    /// Sets whether the comment is folded.
    pub fn minimized(self, minimized: bool) -> (b: CommentBuilder)
        ensures
            b == (CommentBuilder { minimized, ..self }),
    {
        let mut b = self;
        b.minimized = minimized;
        b
    }

    /// The comment that `self` describes.
    pub open spec fn built(&self) -> Comment {
        Comment {
            block_id: self.block_uid,
            x: self.x,
            y: self.y,
            width: self.width,
            height: self.height,
            minimized: self.minimized,
            text: self.content,
        }
    }

    /// Builds the comment.
    pub fn build(&self) -> (c: Comment)
        ensures
            c == self.built(),
    {
        Comment {
            block_id: match &self.block_uid {
                Some(u) => Some(u.clone()),
                None => None,
            },
            x: self.x,
            y: self.y,
            width: self.width,
            height: self.height,
            minimized: self.minimized,
            text: self.content.clone(),
        }
    }
}

impl Default for CommentBuilder {
    /// An empty comment: at the origin, 200 by 200, open, attached to no
    /// node.
    fn default() -> (b: CommentBuilder)
        ensures
            b.content@ == Seq::<char>::empty(),
            b.block_uid is None,
            b.x == Some(0i64),
            b.y == Some(0i64),
            b.width == 200,
            b.height == 200,
            !b.minimized,
    {
        CommentBuilder {
            block_uid: None,
            x: Some(0),
            y: Some(0),
            width: 200,
            height: 200,
            minimized: false,
            content: String::new(),
        }
    }
}

} // verus!

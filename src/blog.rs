//! The blog store used until a database is attached: it holds no posts and accepts none.
use vstd::prelude::*;
use crate::models::{BlogPost, CreateBlogPost};

verus! {

/// Why a blog store refused an operation.
#[derive(Clone, Copy, Debug, PartialEq, Eq, Structural)]
pub enum RepositoryError {
    /// Creating posts needs a database.
    NotImplemented,
}

/// A blog store without storage.
#[derive(Debug)]
pub struct InMemoryBlogRepository {}

impl Default for InMemoryBlogRepository {
    fn default() -> (r: Self) {
        Self::new()
    }
}

impl InMemoryBlogRepository {
    pub fn new() -> (r: Self) {
        InMemoryBlogRepository {  }
    }

    /// Every post: there are none.
    pub fn get_all_posts(&self) -> (r: Vec<BlogPost>)
        ensures
            r@.len() == 0,
    {
        Vec::new()
    }

    /// The post with `id`: there is none.
    pub fn get_post_by_id(&self, id: uuid::Uuid) -> (r: Option<BlogPost>)
        ensures
            r is None,
    {
        None
    }

    /// The post with `slug`: there is none.
    pub fn get_post_by_slug(&self, slug: &str) -> (r: Option<BlogPost>)
        ensures
            r is None,
    {
        None
    }

    /// Creating a post is refused.
    pub fn create_post(&self, post: CreateBlogPost) -> (r: Result<BlogPost, RepositoryError>)
        ensures
            r == Err::<BlogPost, RepositoryError>(RepositoryError::NotImplemented),
    {
        Err(RepositoryError::NotImplemented)
    }

    /// Updating a post finds nothing to update.
    pub fn update_post(&self, id: uuid::Uuid, post: CreateBlogPost) -> (r: Option<BlogPost>)
        ensures
            r is None,
    {
        None
    }

    /// Deleting a post finds nothing to delete.
    pub fn delete_post(&self, id: uuid::Uuid) -> (r: bool)
        ensures
            !r,
    {
        false
    }

    /// Every published post: there are none.
    pub fn get_published_posts(&self) -> (r: Vec<BlogPost>)
        ensures
            r@.len() == 0,
    {
        Vec::new()
    }
}

} // verus!

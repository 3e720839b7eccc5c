//! Data of the CV page and of the blog API, and the JSON response envelope.
use vstd::prelude::*;

verus! {

/// Relies on `uuid::Uuid`: blog post ids are carried through unread.
#[verifier::external_type_specification]
#[verifier::external_body]
pub struct ExUuid(uuid::Uuid);

/// Who the CV is about.
#[derive(Clone, Debug)]
pub struct PersonalInfo {
    pub name: String,
    pub title: String,
    pub email: String,
    pub location: String,
    pub summary: String,
    pub about_me: String,
}

/// One position held.
#[derive(Clone, Debug)]
pub struct Experience {
    pub title: String,
    pub company: String,
    pub duration: String,
    pub description: Vec<String>,
}

/// One degree.
#[derive(Clone, Debug)]
pub struct Education {
    pub degree: String,
    pub institution: String,
    pub year: String,
    pub gpa: Option<String>,
}

/// One skill as listed on the CV page.
#[derive(Clone, Debug)]
pub struct Skill {
    pub name: String,
    pub level: u8,
    pub category: String,
}

/// One project.
#[derive(Clone, Debug)]
pub struct Project {
    pub name: String,
    pub description: String,
    pub technologies: Vec<String>,
    pub github_url: Option<String>,
    pub demo_url: Option<String>,
}

/// Everything the CV page shows.
#[derive(Clone, Debug)]
pub struct CVData {
    pub personal_info: PersonalInfo,
    pub experience: Vec<Experience>,
    pub education: Vec<Education>,
    pub skills: Vec<Skill>,
    pub projects: Vec<Project>,
}

/// A blog post. Times are milliseconds since the Unix epoch, in UTC.
#[derive(Debug)]
pub struct BlogPost {
    pub id: uuid::Uuid,
    pub title: String,
    pub slug: String,
    pub content: String,
    pub excerpt: Option<String>,
    pub published: bool,
    pub created_at: i64,
    pub updated_at: i64,
    pub tags: Vec<String>,
}

/// The fields a client supplies to create a blog post.
#[derive(Debug)]
pub struct CreateBlogPost {
    pub title: String,
    pub content: String,
    pub excerpt: Option<String>,
    pub published: bool,
    pub tags: Vec<String>,
}

/// JSON response envelope: data on success, a message on failure.
#[derive(Debug)]
pub struct ApiResponse<T> {
    pub success: bool,
    pub data: Option<T>,
    pub message: Option<String>,
}

impl<T> ApiResponse<T> {
    /// A successful response carrying `data`.
    pub fn success(data: T) -> (r: Self)
        ensures
            r.success,
            r.data == Some(data),
            r.message is None,
    {
        ApiResponse { success: true, data: Some(data), message: None }
    }

    /// A failed response carrying `message`.
    pub fn error(message: String) -> (r: Self)
        ensures
            !r.success,
            r.data is None,
            r.message == Some(message),
    {
        ApiResponse { success: false, data: None, message: Some(message) }
    }
}

} // verus!

//! The answers that describe a project, trimmed and checked.

use vstd::prelude::*;
use crate::text::{trim_text, trimmed};

verus! {

/// Why a set of answers cannot describe a project.
#[derive(Clone, Copy, Debug, PartialEq, Eq, Structural)]
pub enum InputError {
    /// The project name is blank.
    EmptyName,
    /// The short description is blank.
    EmptyDescription,
}

impl InputError {
    /// A short message naming the field that failed.
    pub fn message(&self) -> (r: &'static str)
        ensures
            *self == InputError::EmptyName ==> r@ == "empty project name"@,
            *self == InputError::EmptyDescription ==> r@ == "empty description"@,
    {
        match self {
            InputError::EmptyName => "empty project name",
            InputError::EmptyDescription => "empty description",
        }
    }
}

/// What the document is made from. An empty string stands for a field left
/// blank.
#[derive(Clone, Debug)]
pub struct ProjectMetadata {
    pub name: String,
    /// Background colour of the title badge, a hex code without `#`.
    pub badge_color: String,
    pub logo_url: String,
    pub description: String,
    pub image_url: String,
    pub license: String,
    pub demo_url: String,
    pub install_command: String,
}

impl ProjectMetadata {
    /// A project needs a name and a description.
    pub open spec fn wf(&self) -> bool {
        self.name@.len() > 0 && self.description@.len() > 0
    }

    /// Trims every answer and checks that the name, then the description, is
    /// not blank.
    pub fn from_answers(
        name: &str,
        badge_color: &str,
        logo_url: &str,
        description: &str,
        image_url: &str,
        license: &str,
        demo_url: &str,
        install_command: &str,
    ) -> (r: Result<ProjectMetadata, InputError>)
        ensures
            trimmed(name@).len() == 0 ==> r == Err::<ProjectMetadata, InputError>(
                InputError::EmptyName,
            ),
            trimmed(name@).len() > 0 && trimmed(description@).len() == 0 ==> r == Err::<
                ProjectMetadata,
                InputError,
            >(InputError::EmptyDescription),
            trimmed(name@).len() > 0 && trimmed(description@).len() > 0 ==> r is Ok,
            r matches Ok(m) ==> {
                &&& m.wf()
                &&& m.name@ == trimmed(name@)
                &&& m.badge_color@ == trimmed(badge_color@)
                &&& m.logo_url@ == trimmed(logo_url@)
                &&& m.description@ == trimmed(description@)
                &&& m.image_url@ == trimmed(image_url@)
                &&& m.license@ == trimmed(license@)
                &&& m.demo_url@ == trimmed(demo_url@)
                &&& m.install_command@ == trimmed(install_command@)
            },
    {
        let name = trim_text(name);
        if name.as_str().unicode_len() == 0 {
            return Err(InputError::EmptyName);
        }
        let description = trim_text(description);
        if description.as_str().unicode_len() == 0 {
            return Err(InputError::EmptyDescription);
        }
        Ok(ProjectMetadata {
            name,
            badge_color: trim_text(badge_color),
            logo_url: trim_text(logo_url),
            description,
            image_url: trim_text(image_url),
            license: trim_text(license),
            demo_url: trim_text(demo_url),
            install_command: trim_text(install_command),
        })
    }
}

} // verus!

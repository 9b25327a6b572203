//! The output targets and the errors that stop a render.
use vstd::prelude::*;

use crate::text::{repeat, repeat_text};

verus! {

/// The text that one level of indentation is made of.
#[derive(Debug, Clone, Copy, PartialEq, Eq, Structural)]
pub enum IndentType {
    Tab,
    /// Include the amount of spaces for each indentation here.
    Space(u16),
}

/// A target language. Only the indentation-sensitive target carries a
/// configuration: whether type annotations are written, the indentation
/// unit, and the depth that rendering starts at (`None` is depth zero).
#[derive(Debug, Clone, Copy, PartialEq, Eq, Structural)]
pub enum Language {
    Rust,
    TypeScript,
    CPP,
    Python { include_types: bool, indent_level: Option<u32>, indent_type: IndentType },
}

/// Why a render produced no text. A render that fails returns only this:
/// never a part of the text.
#[derive(Debug, Clone, Copy, PartialEq, Eq, Structural)]
pub enum RenderError {
    /// The construct has no form in the target language.
    UnsupportedConstruct,
    /// The target language demands a type that the construct omits.
    MissingRequiredAnnotation,
    /// The indentation-sensitive configuration cannot serve the render: its
    /// indent level leaves no room for one more nested body.
    MalformedConfiguration,
}

impl IndentType {
    /// One indentation unit: a tab, or `n` spaces.
    pub open spec fn unit(self) -> Seq<char> {
        match self {
            IndentType::Tab => "\t"@,
            IndentType::Space(n) => repeat(" "@, n as nat),
        }
    }

    pub fn unit_text(&self) -> (r: String)
        ensures
            r@ == self.unit(),
    {
        match self {
            IndentType::Tab => String::from_str("\t"),
            IndentType::Space(n) => repeat_text(" ", *n as usize),
        }
    }
}

impl Language {
    /// The nesting depth the render is at; zero outside the
    /// indentation-sensitive target.
    pub open spec fn depth(self) -> nat {
        match self {
            Language::Python { indent_level, .. } => match indent_level {
                Some(d) => d as nat,
                None => 0,
            },
            _ => 0,
        }
    }

    /// Whether type annotations are written: always, but where the
    /// indentation-sensitive configuration turns them off.
    pub open spec fn shows_types(self) -> bool {
        match self {
            Language::Python { include_types, .. } => include_types,
            _ => true,
        }
    }

    /// The language a nested body is rendered in: one level deeper for the
    /// indentation-sensitive target, the same elsewhere.
    pub open spec fn deeper(self) -> Result<Language, RenderError> {
        match self {
            Language::Python { include_types, indent_level, indent_type } => {
                if self.depth() < u32::MAX {
                    Ok(
                        Language::Python {
                            include_types,
                            indent_level: Some((self.depth() + 1) as u32),
                            indent_type,
                        },
                    )
                } else {
                    Err(RenderError::MalformedConfiguration)
                }
            },
            _ => Ok(self),
        }
    }

    /// The indentation unit of the indentation-sensitive target.
    pub open spec fn unit(self) -> Seq<char> {
        match self {
            Language::Python { indent_type, .. } => indent_type.unit(),
            _ => Seq::empty(),
        }
    }

    /// What starts each statement of a body in the indentation-sensitive
    /// target: a line break, then the unit once per level of depth.
    pub open spec fn line_start(self) -> Seq<char> {
        if self is Python {
            "\n"@ + repeat(self.unit(), self.depth())
        } else {
            Seq::empty()
        }
    }

    pub fn depth_exec(&self) -> (r: u32)
        ensures
            r as nat == self.depth(),
    {
        match self {
            Language::Python { indent_level, .. } => match indent_level {
                Some(d) => *d,
                None => 0,
            },
            _ => 0,
        }
    }

    pub fn shows_types_exec(&self) -> (r: bool)
        ensures
            r == self.shows_types(),
    {
        match self {
            Language::Python { include_types, .. } => *include_types,
            _ => true,
        }
    }

    pub fn deeper_exec(&self) -> (r: Result<Language, RenderError>)
        ensures
            r == self.deeper(),
    {
        match self {
            Language::Python { include_types, indent_level: _, indent_type } => {
                let d = self.depth_exec();
                if d < u32::MAX {
                    Ok(
                        Language::Python {
                            include_types: *include_types,
                            indent_level: Some(d + 1),
                            indent_type: *indent_type,
                        },
                    )
                } else {
                    Err(RenderError::MalformedConfiguration)
                }
            },
            _ => Ok(*self),
        }
    }

    pub fn line_start_exec(&self) -> (r: String)
        ensures
            r@ == self.line_start(),
    {
        match self {
            Language::Python { indent_type, .. } => {
                let unit = indent_type.unit_text();
                let mut s = String::from_str("\n");
                let tail = repeat_text(unit.as_str(), self.depth_exec() as usize);
                s.append(tail.as_str());
                s
            },
            _ => String::new(),
        }
    }
}

} // verus!

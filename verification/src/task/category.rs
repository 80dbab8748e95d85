use vstd::prelude::*;
use vstd::std_specs::cmp::PartialEqSpec;
use uuid::Uuid;
use crate::ident::fresh_id;
use crate::text::{is_blank, is_tight, lemma_trimmed_is_tight, lemma_trimmed_empty_iff_blank, trim,
    trimmed};

verus! {

/// The error of a category whose title would be empty.
pub const EMPTY_TITLE: &'static str = "the title is empty";

/// The group that a task belongs to. Two categories are the same category
/// when their titles are equal.
#[derive(Debug)]
pub struct Category {
    #[allow(unused)]
    id: Uuid,
    title: String,
}

impl View for Category {
    type V = Seq<char>;

    /// A category is seen as its title.
    closed spec fn view(&self) -> Seq<char> {
        self.title@
    }
}

impl Category {
    /// The title of the category that stands where none was chosen.
    pub open spec fn default_title() -> Seq<char> {
        "Default"@
    }

    /// The title of every category is tight.
    #[verifier::type_invariant]
    spec fn wf(self) -> bool {
        is_tight(self.title@)
    }

    /// A category with `title` trimmed as its title, unless `title` is blank.
    pub fn new(title: &str) -> (made: Result<Category, &'static str>)
        ensures
            match made {
                Ok(category) => !is_blank(title@) && category@ == trimmed(title@),
                Err(e) => is_blank(title@) && e == EMPTY_TITLE,
            },
    {
        match Category::prepare_title(title) {
            Ok(title) => Ok(Category { id: fresh_id(), title }),
            Err(e) => Err(e),
        }
    }

    /// The title: a tight text.
    pub fn get_title(&self) -> (title: &str)
        ensures
            title@ == self@,
            is_tight(title@),
    {
        proof {
            use_type_invariant(self);
        }
        self.title.as_str()
    }

    /// Gives the category `title` trimmed as its title and returns it, unless
    /// `title` is blank: then the category stays as it is.
    pub fn set_title(&mut self, title: &str) -> (set: Result<&str, &'static str>)
        ensures
            match set {
                Ok(t) => !is_blank(title@) && final(self)@ == trimmed(title@) && t@ == final(self)@,
                Err(e) => is_blank(title@) && e == EMPTY_TITLE && final(self)@ == old(self)@,
            },
    {
        match Category::prepare_title(title) {
            Ok(title) => {
                self.title = title;
                Ok(self.title.as_str())
            },
            Err(e) => Err(e),
        }
    }

    /// The category as text: its title.
    pub fn to_string(&self) -> (text: String)
        ensures
            text@ == self@,
    {
        self.title.clone()
    }

    /// The title that `title` gives, unless `title` is blank.
    fn prepare_title(title: &str) -> (prepared: Result<String, &'static str>)
        ensures
            match prepared {
                Ok(t) => !is_blank(title@) && t@ == trimmed(title@) && is_tight(t@),
                Err(e) => is_blank(title@) && e == EMPTY_TITLE,
            },
    {
        let core = trim(title);
        proof {
            lemma_trimmed_empty_iff_blank(title@);
        }
        if core.is_empty() {
            return Err(EMPTY_TITLE);
        }
        proof {
            lemma_trimmed_is_tight(title@);
        }
        Ok(core.to_owned())
    }

    /// Any two default categories are equal, whenever and in whatever order
    /// they were asked for.
    pub proof fn lemma_defaults_are_equal(a: Category, b: Category)
        requires
            a@ == Category::default_title(),
            b@ == Category::default_title(),
        ensures
            a.eq_spec(&b),
            b.eq_spec(&a),
    {
    }
}

/// Categories are compared by their titles.
impl PartialEq for Category {
    fn eq(&self, other: &Category) -> (same: bool) {
        self.title == other.title
    }
}

impl vstd::std_specs::cmp::PartialEqSpecImpl for Category {
    open spec fn obeys_eq_spec() -> bool {
        true
    }

    /// Categories are equal when their titles are.
    open spec fn eq_spec(&self, other: &Category) -> bool {
        self@ == other@
    }
}

impl Eq for Category {

}

impl Clone for Category {
    /// A category with the same title.
    fn clone(&self) -> (copy: Category)
        ensures
            copy@ == self@,
    {
        proof {
            use_type_invariant(self);
        }
        Category { id: self.id, title: self.title.clone() }
    }
}

impl Default for Category {
    /// The category with the title `Default`.
    fn default() -> (category: Category)
        ensures
            category@ == Category::default_title(),
    {
        proof {
            reveal_strlit("Default");
        }
        Category { id: fresh_id(), title: "Default".to_owned() }
    }
}

} // verus!

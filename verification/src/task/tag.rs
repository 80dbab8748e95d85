use vstd::prelude::*;
use uuid::Uuid;
use crate::ident::fresh_id;
use crate::text::{is_blank, is_tight, lemma_substituted_tight, lemma_trimmed_empty_iff_blank,
    lemma_trimmed_is_tight, lemma_trimmed_of_tight, replace, substituted, trim, trimmed};

verus! {

/// The error of a tag whose title would be empty.
pub const EMPTY_TITLE: &'static str = "the title is empty";

/// A label on a task. Two tags are the same tag when their titles are equal.
#[derive(Debug)]
pub struct Tag {
    #[allow(unused)]
    id: Uuid,
    title: String,
}

impl View for Tag {
    type V = Seq<char>;

    /// A tag is seen as its title.
    closed spec fn view(&self) -> Seq<char> {
        self.title@
    }
}

impl Tag {
    /// The shape of a tag's title: tight, and free of spaces.
    pub open spec fn is_title(s: Seq<char>) -> bool {
        is_tight(s) && !s.contains(' ')
    }

    /// The title that a tag gets from the text `s`: `s` trimmed, with an
    /// underscore in the place of every space that is left.
    pub open spec fn normal(s: Seq<char>) -> Seq<char> {
        substituted(trimmed(s), ' ', '_')
    }

    /// The title of every tag has the shape of a tag's title.
    #[verifier::type_invariant]
    spec fn wf(self) -> bool {
        Tag::is_title(self.title@)
    }

    /// The title of a text that is not blank has the shape of a tag's title.
    pub proof fn lemma_normal_is_title(s: Seq<char>)
        requires
            !is_blank(s),
        ensures
            Tag::is_title(Tag::normal(s)),
    {
        lemma_trimmed_is_tight(s);
        lemma_substituted_tight(trimmed(s), ' ', '_');
    }

    /// A text of the shape of a tag's title gives itself as the title.
    pub proof fn lemma_normal_of_title(s: Seq<char>)
        requires
            Tag::is_title(s),
        ensures
            Tag::normal(s) == s,
            !is_blank(s),
    {
        lemma_trimmed_of_tight(s);
        assert forall|i: int| 0 <= i < s.len() implies s[i] != ' ' by {
            assert(s.contains(s[i]));
        }
        assert(Tag::normal(s) =~= s);
    }

    /// A tag with the title that `title` gives, unless `title` is blank.
    pub fn new(title: &str) -> (made: Result<Tag, &'static str>)
        ensures
            match made {
                Ok(tag) => !is_blank(title@) && tag@ == Tag::normal(title@),
                Err(e) => is_blank(title@) && e == EMPTY_TITLE,
            },
    {
        match Tag::prepare_title(title) {
            Ok(title) => Ok(Tag { id: fresh_id(), title }),
            Err(e) => Err(e),
        }
    }

    /// The title: a tight text without spaces.
    pub fn get_title(&self) -> (title: &str)
        ensures
            title@ == self@,
            Tag::is_title(title@),
    {
        proof {
            use_type_invariant(self);
        }
        self.title.as_str()
    }

    /// Gives the tag the title that `title` gives and returns it, unless
    /// `title` is blank: then the tag stays as it is.
    pub fn set_title(&mut self, title: &str) -> (set: Result<&str, &'static str>)
        ensures
            match set {
                Ok(t) => !is_blank(title@) && final(self)@ == Tag::normal(title@) && t@ == final(self)@,
                Err(e) => is_blank(title@) && e == EMPTY_TITLE && final(self)@ == old(self)@,
            },
    {
        match Tag::prepare_title(title) {
            Ok(title) => {
                self.title = title;
                Ok(self.title.as_str())
            },
            Err(e) => Err(e),
        }
    }

    /// The tag as text: a hash sign, then the title.
    pub fn to_string(&self) -> (text: String)
        ensures
            text@ == seq!['#'] + self@,
    {
        proof {
            reveal_strlit("#");
        }
        let text = String::from_str("#").concat(self.title.as_str());
        assert(text@ =~= seq!['#'] + self@);
        text
    }

    /// The title that `title` gives, unless `title` is blank.
    fn prepare_title(title: &str) -> (prepared: Result<String, &'static str>)
        ensures
            match prepared {
                Ok(t) => !is_blank(title@) && t@ == Tag::normal(title@) && Tag::is_title(t@),
                Err(e) => is_blank(title@) && e == EMPTY_TITLE,
            },
    {
        let core = trim(title);
        proof {
            lemma_trimmed_empty_iff_blank(title@);
        }
        if core.is_empty() {
            return Err(EMPTY_TITLE);
        }
        proof {
            reveal_strlit(" ");
            reveal_strlit("_");
            Tag::lemma_normal_is_title(title@);
        }
        Ok(replace(core, " ", "_"))
    }
}

/// Tags are compared by their titles.
impl PartialEq for Tag {
    fn eq(&self, other: &Tag) -> (same: bool) {
        self.title == other.title
    }
}

impl vstd::std_specs::cmp::PartialEqSpecImpl for Tag {
    open spec fn obeys_eq_spec() -> bool {
        true
    }

    /// Tags are equal when their titles are.
    open spec fn eq_spec(&self, other: &Tag) -> bool {
        self@ == other@
    }
}

impl Clone for Tag {
    /// A tag with the same title.
    fn clone(&self) -> (copy: Tag)
        ensures
            copy@ == self@,
    {
        proof {
            use_type_invariant(self);
        }
        Tag { id: self.id, title: self.title.clone() }
    }
}

impl Default for Tag {
    /// The tag with the title `default`.
    fn default() -> (tag: Tag)
        ensures
            tag@ == "default"@,
    {
        proof {
            reveal_strlit("default");
        }
        let title = "default".to_owned();
        assert(!title@.contains(' ')) by {
            assert forall|i: int| 0 <= i < title@.len() implies title@[i] != ' ' by {}
        }
        Tag { id: fresh_id(), title }
    }
}

} // verus!

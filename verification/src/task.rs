pub mod builder;
pub mod category;
pub mod priority;
pub mod status;
pub mod tag;

pub use builder::TaskBuilder;
pub use category::Category;
pub use priority::Priority;
pub use status::TaskStatus;
pub use tag::Tag;

use vstd::prelude::*;
use uuid::Uuid;
use crate::text::{is_blank, is_tight, lemma_trimmed_empty_iff_blank, lemma_trimmed_is_tight, trim,
    trimmed};
use crate::time::{clock_now, days_between, whole_days, Timestamp};

verus! {

/// The error of a task whose title would be empty.
pub const EMPTY_TITLE: &'static str = "Title is empty.";

/// The error of putting a tag on a task that has a tag of that title.
pub const DUPLICATE_TAG: &'static str = "Tag already exists";

/// One thing to do.
pub struct Task {
    #[allow(unused)]
    id: Uuid,
    title: String,
    description: String,
    status: TaskStatus,
    category: Category,
    tags: Vec<Tag>,
    priority: Priority,
    created_at: Timestamp,
    updated_at: Timestamp,
    deadline: Option<Timestamp>,
}

/// What a task holds: categories and tags by their titles.
pub struct TaskView {
    pub title: Seq<char>,
    pub description: Seq<char>,
    pub status: TaskStatus,
    pub category: Seq<char>,
    pub tags: Seq<Seq<char>>,
    pub priority: Priority,
    pub created_at: Timestamp,
    pub updated_at: Timestamp,
    pub deadline: Option<Timestamp>,
}

/// The titles of `tags`, in their order.
pub open spec fn titles(tags: Seq<Tag>) -> Seq<Seq<char>> {
    Seq::new(tags.len(), |i: int| tags[i]@)
}

/// `titles` without every occurrence of `title`, the rest in their order.
pub open spec fn without(titles: Seq<Seq<char>>, title: Seq<char>) -> Seq<Seq<char>> {
    titles.filter(|other: Seq<char>| other != title)
}

impl TaskView {
    /// The same task after a change that was made at the instant `now`.
    pub open spec fn touched(self, now: Timestamp) -> TaskView {
        TaskView { updated_at: now, ..self }
    }

    /// Whether the last change is no earlier than the creation.
    pub open spec fn in_order(self) -> bool {
        self.created_at@ <= self.updated_at@
    }

    /// A change that is made no earlier than the last one does not move the
    /// instant of the last change back, and leaves it no earlier than the
    /// creation.
    pub proof fn lemma_touched_in_order(self, now: Timestamp)
        requires
            self.updated_at@ <= now@,
        ensures
            self.touched(now).updated_at@ >= self.updated_at@,
            self.in_order() ==> self.touched(now).in_order(),
    {
    }

    /// Whether the task is due within the day around `now`: it has a deadline,
    /// and no whole day lies between `now` and the deadline.
    pub open spec fn is_for_today(self, now: Timestamp) -> bool {
        self.deadline matches Some(deadline) && whole_days(deadline@ - now@) == 0
    }
}

impl View for Task {
    type V = TaskView;

    /// What the task holds.
    closed spec fn view(&self) -> TaskView {
        TaskView {
            title: self.title@,
            description: self.description@,
            status: self.status,
            category: self.category@,
            tags: titles(self.tags@),
            priority: self.priority,
            created_at: self.created_at,
            updated_at: self.updated_at,
            deadline: self.deadline,
        }
    }
}

impl Task {
    /// The title of every task is tight.
    #[verifier::type_invariant]
    spec fn wf(self) -> bool {
        is_tight(self.title@)
    }

    /// Starts a task with `title` trimmed as its title, unless `title` is blank.
    pub fn new(title: &str) -> (started: Result<TaskBuilder, &'static str>)
        ensures
            match started {
                Ok(builder) => !is_blank(title@) && builder@ == builder::BuilderView::start(
                    trimmed(title@),
                ),
                Err(e) => is_blank(title@) && e == EMPTY_TITLE,
            },
    {
        match Task::prepare_title(title) {
            Ok(title) => Ok(TaskBuilder::start(title)),
            Err(e) => Err(e),
        }
    }

    /// The title that `title` gives, unless `title` is blank.
    fn prepare_title(title: &str) -> (prepared: Result<String, &'static str>)
        ensures
            match prepared {
                Ok(t) => !is_blank(title@) && t@ == trimmed(title@) && is_tight(t@),
                Err(e) => is_blank(title@) && e == EMPTY_TITLE,
            },
    {
        let core = trim(title);
        proof {
            lemma_trimmed_empty_iff_blank(title@);
        }
        if core.is_empty() {
            return Err(EMPTY_TITLE);
        }
        proof {
            lemma_trimmed_is_tight(title@);
        }
        Ok(core.to_owned())
    }

    /// Records that the task was changed at the instant `now`.
    pub fn touch(&mut self, now: Timestamp)
        ensures
            final(self)@ == old(self)@.touched(now),
    {
        proof {
            use_type_invariant(&*self);
        }
        self.updated_at = now;
    }

    /// Gives the task `title` trimmed as its title, unless `title` is blank:
    /// then the task stays as it is.
    pub fn set_title(&mut self, title: &str) -> (set: Result<(), &'static str>)
        ensures
            match set {
                Ok(_) => !is_blank(title@) && final(self)@ == (TaskView {
                    title: trimmed(title@),
                    ..old(self)@
                }).touched(final(self)@.updated_at),
                Err(e) => is_blank(title@) && e == EMPTY_TITLE && final(self)@ == old(self)@,
            },
    {
        match Task::prepare_title(title) {
            Ok(title) => {
                self.title = title;
                self.update_time();
                Ok(())
            },
            Err(e) => Err(e),
        }
    }

    /// The title: a tight text.
    pub fn get_title(&self) -> (title: &str)
        ensures
            title@ == self@.title,
            is_tight(title@),
    {
        proof {
            use_type_invariant(self);
        }
        self.title.as_str()
    }

    /// Replaces the description.
    pub fn set_description(&mut self, description: &str)
        ensures
            final(self)@ == (TaskView { description: description@, ..old(self)@ }).touched(
                final(self)@.updated_at,
            ),
    {
        proof {
            use_type_invariant(&*self);
        }
        self.update_time();
        self.description = description.to_owned();
    }

    /// The description.
    pub fn get_description(&self) -> (description: &str)
        ensures
            description@ == self@.description,
    {
        self.description.as_str()
    }

    /// Replaces the status; any status may follow any other.
    pub fn set_status(&mut self, status: TaskStatus)
        ensures
            final(self)@ == (TaskView { status, ..old(self)@ }).touched(final(self)@.updated_at),
    {
        proof {
            use_type_invariant(&*self);
        }
        self.update_time();
        self.status = status;
    }

    /// The status.
    pub fn get_status(&self) -> (status: &TaskStatus)
        ensures
            *status == self@.status,
    {
        &self.status
    }

    /// Replaces the category.
    pub fn set_category(&mut self, category: Category)
        ensures
            final(self)@ == (TaskView { category: category@, ..old(self)@ }).touched(
                final(self)@.updated_at,
            ),
    {
        proof {
            use_type_invariant(&*self);
        }
        self.update_time();
        self.category = category;
    }

    /// The category.
    pub fn get_category(&self) -> (category: &Category)
        ensures
            category@ == self@.category,
    {
        &self.category
    }

    /// Replaces the tags by `tags`, as they come.
    pub fn set_tags(&mut self, tags: Vec<Tag>)
        ensures
            final(self)@ == (TaskView { tags: titles(tags@), ..old(self)@ }).touched(
                final(self)@.updated_at,
            ),
    {
        proof {
            use_type_invariant(&*self);
        }
        self.update_time();
        self.tags = tags
    }

    /// The tags, in their order.
    pub fn get_tags(&self) -> (tags: &Vec<Tag>)
        ensures
            titles(tags@) == self@.tags,
    {
        &self.tags
    }

    /// Whether the task has a tag of `tag`'s title.
    pub fn has_tag(&self, tag: &Tag) -> (has: bool)
        ensures
            has == self@.tags.contains(tag@),
    {
        let mut i: usize = 0;
        while i < self.tags.len()
            invariant
                i <= self.tags@.len(),
                forall|j: int| 0 <= j < i ==> titles(self.tags@)[j] != tag@,
            decreases self.tags@.len() - i,
        {
            if self.tags[i] == *tag {
                assert(titles(self.tags@)[i as int] == tag@);
                return true;
            }
            i = i + 1;
        }
        false
    }

    /// Puts `tag` behind the task's tags, unless the task has a tag of that
    /// title: then the task stays as it is.
    pub fn add_tag(&mut self, tag: Tag) -> (added: Result<(), &'static str>)
        ensures
            match added {
                Ok(_) => !old(self)@.tags.contains(tag@) && final(self)@ == (TaskView {
                    tags: old(self)@.tags.push(tag@),
                    ..old(self)@
                }).touched(final(self)@.updated_at),
                Err(e) => old(self)@.tags.contains(tag@) && e == DUPLICATE_TAG && *final(self)
                    == *old(self),
            },
    {
        if self.has_tag(&tag) {
            return Err(DUPLICATE_TAG);
        }
        proof {
            use_type_invariant(&*self);
        }
        let ghost before = self@.tags;
        let mut tags: Vec<Tag> = Vec::new();
        std::mem::swap(&mut tags, &mut self.tags);
        tags.push(tag);
        self.tags = tags;
        assert(titles(self.tags@) =~= before.push(tag@));
        self.update_time();
        Ok(())
    }

    /// Takes every tag of `tag`'s title off the task; the other tags keep
    /// their order. Where the task has no such tag, its tags stay as they are.
    pub fn remove_tag(&mut self, tag: Tag)
        ensures
            final(self)@ == (TaskView {
                tags: without(old(self)@.tags, tag@),
                ..old(self)@
            }).touched(final(self)@.updated_at),
            !old(self)@.tags.contains(tag@) ==> final(self)@.tags == old(self)@.tags,
    {
        proof {
            use_type_invariant(&*self);
            lemma_filter_keeps_all(self@.tags, tag@);
        }
        let mut tags: Vec<Tag> = Vec::new();
        std::mem::swap(&mut tags, &mut self.tags);
        drop_title(&mut tags, &tag);
        self.tags = tags;
        self.update_time();
    }

    /// Replaces the priority.
    pub fn set_priority(&mut self, priority: Priority)
        ensures
            final(self)@ == (TaskView { priority, ..old(self)@ }).touched(final(self)@.updated_at),
    {
        proof {
            use_type_invariant(&*self);
        }
        self.priority = priority;
        self.update_time();
    }

    /// The priority.
    pub fn get_priority(&self) -> (priority: &Priority)
        ensures
            *priority == self@.priority,
    {
        &self.priority
    }

    /// Steps the priority one level up; `Red` stays `Red`.
    pub fn up_priority(&mut self)
        ensures
            final(self)@ == (TaskView { priority: old(self)@.priority.up(), ..old(self)@ }).touched(
                final(self)@.updated_at,
            ),
    {
        proof {
            use_type_invariant(&*self);
        }
        self.priority = self.priority.up();
        self.update_time();
    }

    /// Steps the priority one level down; `Common` stays `Common`.
    pub fn down_priority(&mut self)
        ensures
            final(self)@ == (TaskView {
                priority: old(self)@.priority.down(),
                ..old(self)@
            }).touched(final(self)@.updated_at),
    {
        proof {
            use_type_invariant(&*self);
        }
        self.priority = self.priority.down();
        self.update_time();
    }

    /// The instant at which the task was built.
    pub fn get_created_at(&self) -> (at: &Timestamp)
        ensures
            *at == self@.created_at,
    {
        &self.created_at
    }

    /// The instant of the last change.
    pub fn get_updated_at(&self) -> (at: &Timestamp)
        ensures
            *at == self@.updated_at,
    {
        &self.updated_at
    }

    /// Records a change at the present reading of the clock.
    fn update_time(&mut self)
        ensures
            final(self)@ == old(self)@.touched(final(self)@.updated_at),
    {
        self.touch(clock_now());
    }

    /// Whether a deadline is set.
    pub fn has_deadline(&self) -> (has: bool)
        ensures
            has == self@.deadline is Some,
    {
        self.deadline.is_some()
    }

    /// Sets the deadline. This does not count as a change of the task: the
    /// instant of the last change stays.
    pub fn set_deadline(&mut self, deadline: Timestamp)
        ensures
            final(self)@ == (TaskView { deadline: Some(deadline), ..old(self)@ }),
    {
        proof {
            use_type_invariant(&*self);
        }
        self.deadline = Some(deadline);
    }

    /// Whether the task is due within the day around the present reading of
    /// the clock, whatever that reading is. A task without a deadline never is.
    pub fn is_for_today(&self) -> (today: bool)
        ensures
            today ==> self@.deadline is Some,
            exists|now: Timestamp| now.wf() && today == #[trigger] self@.is_for_today(now),
    {
        if !self.has_deadline() {
            proof {
                use_type_invariant(&self.created_at);
                assert(!self@.is_for_today(self.created_at));
            }
            return false;
        }
        let now = clock_now();
        let today = self.is_for_today_at(now);
        assert(today == self@.is_for_today(now));
        today
    }

    /// Whether the task is due within the day around `now`.
    pub fn is_for_today_at(&self, now: Timestamp) -> (today: bool)
        ensures
            today == self@.is_for_today(now),
    {
        match self.deadline {
            None => false,
            Some(deadline) => {
                proof {
                    use_type_invariant(&deadline);
                    use_type_invariant(&now);
                }
                days_between(&deadline, &now) == 0
            },
        }
    }

    /// The task as text: priority, title and category.
    pub fn to_string(&self) -> (text: String)
        ensures
            text@ == self@.priority.name() + "| "@ + self@.title + " : "@ + self@.category,
    {
        let mut text = self.priority.to_string();
        text.append("| ");
        text.append(self.title.as_str());
        text.append(" : ");
        text.append(self.category.get_title());
        text
    }
}

/// Takes every tag of `tag`'s title out of `tags`; the others keep their order.
fn drop_title(tags: &mut Vec<Tag>, tag: &Tag)
    ensures
        titles(final(tags)@) == without(titles(old(tags)@), tag@),
{
    let ghost before = titles(tags@);
    let ghost mut seen: int = 0;
    let mut i: usize = 0;
    while i < tags.len()
        invariant
            i <= tags@.len(),
            0 <= seen <= before.len(),
            tags@.len() - i == before.len() - seen,
            titles(tags@).take(i as int) == without(before.take(seen), tag@),
            titles(tags@).skip(i as int) == before.skip(seen),
        decreases tags@.len() - i,
    {
        let ghost current = titles(tags@);
        proof {
            assert(current[i as int] == before[seen]) by {
                assert(current.skip(i as int)[0] == before.skip(seen)[0]);
            }
            assert(before.take(seen + 1) =~= before.take(seen).push(before[seen]));
            before.take(seen).lemma_filter_push(before[seen], |other: Seq<char>| other != tag@);
        }
        if tags[i] == *tag {
            tags.remove(i);
            proof {
                assert(titles(tags@) =~= current.remove(i as int));
                assert(titles(tags@).take(i as int) =~= current.take(i as int));
                let rest = titles(tags@).skip(i as int);
                assert forall|k: int| 0 <= k < rest.len() implies #[trigger] rest[k]
                    == before.skip(seen + 1)[k] by {
                    assert(current.skip(i as int)[k + 1] == before.skip(seen)[k + 1]);
                }
                assert(rest =~= before.skip(seen + 1));
            }
        } else {
            proof {
                assert(current.take(i + 1) =~= current.take(i as int).push(current[i as int]));
                let rest = current.skip(i + 1);
                assert forall|k: int| 0 <= k < rest.len() implies #[trigger] rest[k]
                    == before.skip(seen + 1)[k] by {
                    assert(current.skip(i as int)[k + 1] == before.skip(seen)[k + 1]);
                }
                assert(rest =~= before.skip(seen + 1));
            }
            i = i + 1;
        }
        proof {
            seen = seen + 1;
        }
    }
    proof {
        assert(titles(tags@).take(i as int) =~= titles(tags@));
        assert(before.take(seen) =~= before);
    }
}

/// Filtering out a title that does not occur leaves every title in.
pub proof fn lemma_filter_keeps_all(titles: Seq<Seq<char>>, absent: Seq<char>)
    ensures
        !titles.contains(absent) ==> without(titles, absent) == titles,
    decreases titles.len(),
{
    reveal(Seq::filter);
    if titles.len() > 0 && !titles.contains(absent) {
        let front = titles.drop_last();
        assert forall|i: int| 0 <= i < front.len() implies front[i] != absent by {
            assert(front[i] == titles[i]);
        }
        lemma_filter_keeps_all(front, absent);
        assert(titles.last() == titles[titles.len() - 1]);
        assert(front.push(titles.last()) =~= titles);
    }
}

/// Tasks are compared by their titles.
impl PartialEq for Task {
    fn eq(&self, other: &Task) -> (same: bool) {
        self.title == other.title
    }
}

impl vstd::std_specs::cmp::PartialEqSpecImpl for Task {
    open spec fn obeys_eq_spec() -> bool {
        true
    }

    /// Tasks are equal when their titles are: the title is the key under
    /// which a list holds a task.
    open spec fn eq_spec(&self, other: &Task) -> bool {
        self@.title == other@.title
    }
}

} // verus!

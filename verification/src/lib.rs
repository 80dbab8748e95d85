pub mod ident;
pub mod prelude;
pub mod task;
pub mod text;
pub mod time;

use vstd::prelude::*;
use crate::prelude::load::TodoListLoad;
use crate::task::{Category, Priority, Tag, Task, TaskStatus, TaskView};
use crate::task::builder::BuilderView;
use crate::task::titles;
use crate::text::{is_blank, is_tight, lemma_trimmed_of_tight, trimmed};
use crate::time::Timestamp;

verus! {

/// The error of a new task whose title a task of the list has.
pub const DUPLICATE_TASK: &'static str = "A task with same title is already exists";

/// The error of removing a task that the list does not hold.
pub const TASK_NOT_FOUND: &'static str = "THe task is not exists";

/// The error of a new category whose title a category of the list has.
pub const DUPLICATE_CATEGORY: &'static str = "The category with same title is already exists";

/// The error of a new tag whose title a tag of the list has.
pub const DUPLICATE_TAG: &'static str = "The tag is already exists";

/// What to select tasks by.
#[derive(Clone, Copy)]
pub enum By<'a> {
    Category(&'a Category),
    Tag(&'a Tag),
    Priority(Priority),
    Status(TaskStatus),
}

impl<'a> By<'a> {
    /// Whether a task is among those selected.
    pub open spec fn selects(self, task: TaskView) -> bool {
        match self {
            By::Category(category) => task.category == category@,
            By::Tag(tag) => task.tags.contains(tag@),
            By::Priority(priority) => task.priority == priority,
            By::Status(status) => task.status == status,
        }
    }

    /// Whether `task` is among those selected.
    pub fn picks(&self, task: &Task) -> (picked: bool)
        ensures
            picked == self.selects(task@),
    {
        match self {
            By::Category(category) => *task.get_category() == **category,
            By::Tag(tag) => task.has_tag(tag),
            By::Priority(priority) => *task.get_priority() == *priority,
            By::Status(status) => *task.get_status() == *status,
        }
    }
}

/// The tasks of `tasks` that `by` selects, in their order.
pub open spec fn selected(tasks: Seq<Task>, by: By) -> Seq<Task> {
    tasks.filter(|task: Task| by.selects(task@))
}

/// The tasks that `found` refers to, in their order.
pub open spec fn referents(found: Seq<&Task>) -> Seq<Task> {
    Seq::new(found.len(), |i: int| *found[i])
}

/// The titles of `tasks`, in their order.
pub open spec fn task_titles(tasks: Seq<Task>) -> Seq<Seq<char>> {
    Seq::new(tasks.len(), |i: int| tasks[i]@.title)
}

/// The titles of `categories`, in their order.
pub open spec fn category_titles(categories: Seq<Category>) -> Seq<Seq<char>> {
    Seq::new(categories.len(), |i: int| categories[i]@)
}

/// `tasks` without every task of the title `title`, the rest in their order.
pub open spec fn tasks_without(tasks: Seq<Task>, title: Seq<char>) -> Seq<Task> {
    tasks.filter(|task: Task| task@.title != title)
}

/// What a task holds that was made from a title and a description alone, at
/// the instant `now`.
pub open spec fn plain_task(title: Seq<char>, description: Seq<char>, now: Timestamp) -> TaskView {
    (BuilderView { description: Some(description), ..BuilderView::start(title) }).built(now)
}

/// Tasks, with the categories and the tags to choose from.
pub struct TodoList {
    tasks: Vec<Task>,
    categories: Vec<Category>,
    tags: Vec<Tag>,
}

impl TodoList {
    /// The tasks, in the order in which they came.
    pub closed spec fn tasks(&self) -> Seq<Task> {
        self.tasks@
    }

    /// The categories, in the order in which they came.
    pub closed spec fn categories(&self) -> Seq<Category> {
        self.categories@
    }

    /// The tags, in the order in which they came.
    pub closed spec fn tags(&self) -> Seq<Tag> {
        self.tags@
    }

    /// No two tasks share a title, nor two categories, nor two tags.
    pub open spec fn wf(&self) -> bool {
        &&& task_titles(self.tasks()).no_duplicates()
        &&& category_titles(self.categories()).no_duplicates()
        &&& titles(self.tags()).no_duplicates()
    }

    /// The error with which the list refuses a new task made from the text
    /// `title`, if it refuses it: the text is blank, or a task of the list
    /// has the title that it gives.
    pub open spec fn task_refusal(&self, title: Seq<char>) -> Option<&'static str> {
        if is_blank(title) {
            Some(crate::task::EMPTY_TITLE)
        } else if task_titles(self.tasks()).contains(trimmed(title)) {
            Some(DUPLICATE_TASK)
        } else {
            None
        }
    }

    /// The error with which the list refuses a new category made from the
    /// text `title`, if it refuses it.
    pub open spec fn category_refusal(&self, title: Seq<char>) -> Option<&'static str> {
        if is_blank(title) {
            Some(crate::task::category::EMPTY_TITLE)
        } else if category_titles(self.categories()).contains(trimmed(title)) {
            Some(DUPLICATE_CATEGORY)
        } else {
            None
        }
    }

    /// The error with which the list refuses a new tag made from the text
    /// `title`, if it refuses it.
    pub open spec fn tag_refusal(&self, title: Seq<char>) -> Option<&'static str> {
        if is_blank(title) {
            Some(crate::task::tag::EMPTY_TITLE)
        } else if titles(self.tags()).contains(Tag::normal(title)) {
            Some(DUPLICATE_TAG)
        } else {
            None
        }
    }

    /// Once a task was added under a title, the list refuses a second task
    /// under that title as a duplicate.
    pub proof fn lemma_second_task_is_refused(before: TodoList, after: TodoList, title: Seq<char>)
        requires
            before.task_refusal(title) is None,
            after.tasks() == before.tasks().push(after.tasks().last()),
            after.tasks().last()@.title == trimmed(title),
        ensures
            after.task_refusal(title) == Some(DUPLICATE_TASK),
    {
        let last = before.tasks().len() as int;
        assert(task_titles(after.tasks())[last] == trimmed(title));
    }

    /// The list refuses a new task under the very title of one of its tasks.
    pub proof fn lemma_held_title_is_refused(list: TodoList, i: int)
        requires
            0 <= i < list.tasks().len(),
            is_tight(list.tasks()[i]@.title),
        ensures
            list.task_refusal(list.tasks()[i]@.title) == Some(DUPLICATE_TASK),
    {
        lemma_trimmed_of_tight(list.tasks()[i]@.title);
        assert(task_titles(list.tasks())[i] == list.tasks()[i]@.title);
    }

    /// The list of what `loader` supplies.
    pub fn init<L: TodoListLoad>(loader: L) -> (list: TodoList)
        ensures
            exists|tasks: Vec<Task>, categories: Vec<Category>, tags: Vec<Tag>|
                {
                    &&& call_ensures(L::get_todolist_tasks, (&loader,), tasks)
                    &&& call_ensures(L::get_todolist_categories, (&loader,), categories)
                    &&& call_ensures(L::get_todolist_tags, (&loader,), tags)
                    &&& list.tasks() == tasks@
                    &&& list.categories() == categories@
                    &&& list.tags() == tags@
                },
    {
        let tasks = loader.get_todolist_tasks();
        let categories = loader.get_todolist_categories();
        let tags = loader.get_todolist_tags();
        TodoList::from_parts(tasks, categories, tags)
    }

    /// The list of the given tasks, categories and tags, as they come.
    pub fn from_parts(tasks: Vec<Task>, categories: Vec<Category>, tags: Vec<Tag>) -> (list:
        TodoList)
        ensures
            list.tasks() == tasks@,
            list.categories() == categories@,
            list.tags() == tags@,
    {
        TodoList { tasks, categories, tags }
    }

    /// The tasks, in the order in which they came.
    pub fn get_tasks(&self) -> (tasks: &Vec<Task>)
        ensures
            tasks@ == self.tasks(),
    {
        &self.tasks
    }

    /// The categories, in the order in which they came.
    pub fn get_categories(&self) -> (categories: &Vec<Category>)
        ensures
            categories@ == self.categories(),
    {
        &self.categories
    }

    /// The tags, in the order in which they came.
    pub fn get_tags(&self) -> (tags: &Vec<Tag>)
        ensures
            tags@ == self.tags(),
    {
        &self.tags
    }

    /// Puts a task with `title` trimmed as its title, and with the given
    /// description, behind the tasks of the list. A blank title is refused,
    /// and so is a title that a task of the list has; the list then stays as
    /// it is.
    pub fn new_task(&mut self, title: &str, description: &str) -> (added: Result<(), &'static str>)
        ensures
            added == match old(self).task_refusal(title@) {
                Some(e) => Err::<(), &str>(e),
                None => Ok(()),
            },
            added is Err ==> *final(self) == *old(self),
            added is Ok ==> {
                let task = final(self).tasks().last();
                &&& final(self).tasks() == old(self).tasks().push(task)
                &&& task@ == plain_task(trimmed(title@), description@, task@.created_at)
                &&& final(self).categories() == old(self).categories()
                &&& final(self).tags() == old(self).tags()
            },
            old(self).wf() ==> final(self).wf(),
    {
        let task = match Task::new(title) {
            Ok(builder) => builder.description(description).build(),
            Err(e) => {
                return Err(e);
            },
        };
        if holds_task(&self.tasks, &task) {
            return Err(DUPLICATE_TASK);
        }
        let ghost before = self.tasks@;
        self.tasks.push(task);
        proof {
            assert(task_titles(self.tasks@) =~= task_titles(before).push(trimmed(title@)));
            lemma_push_fresh(task_titles(before), trimmed(title@));
        }
        Ok(())
    }

    /// Takes the task of `task`'s title off the list; the other tasks keep
    /// their order. Where the list holds no such task, it stays as it is.
    pub fn remove_task(&mut self, task: Task) -> (removed: Result<(), &'static str>)
        ensures
            match removed {
                Ok(_) => task_titles(old(self).tasks()).contains(task@.title)
                    && final(self).tasks() == tasks_without(old(self).tasks(), task@.title),
                Err(e) => !task_titles(old(self).tasks()).contains(task@.title) && e
                    == TASK_NOT_FOUND && *final(self) == *old(self),
            },
            final(self).categories() == old(self).categories(),
            final(self).tags() == old(self).tags(),
            !task_titles(final(self).tasks()).contains(task@.title),
            old(self).wf() ==> final(self).wf(),
    {
        if !holds_task(&self.tasks, &task) {
            return Err(TASK_NOT_FOUND);
        }
        proof {
            lemma_without_titles(self.tasks@, task@.title);
        }
        drop_task(&mut self.tasks, &task);
        Ok(())
    }

    /// Puts a category with `title` trimmed as its title behind the
    /// categories of the list. A blank title is refused, and so is a title
    /// that a category of the list has; the list then stays as it is.
    pub fn new_category(&mut self, title: &str) -> (added: Result<(), &'static str>)
        ensures
            added == match old(self).category_refusal(title@) {
                Some(e) => Err::<(), &str>(e),
                None => Ok(()),
            },
            added is Err ==> *final(self) == *old(self),
            added is Ok ==> {
                let category = final(self).categories().last();
                &&& final(self).categories() == old(self).categories().push(category)
                &&& category@ == trimmed(title@)
                &&& final(self).tasks() == old(self).tasks()
                &&& final(self).tags() == old(self).tags()
            },
            old(self).wf() ==> final(self).wf(),
    {
        let category = match Category::new(title) {
            Ok(category) => category,
            Err(e) => {
                return Err(e);
            },
        };
        if holds_category(&self.categories, &category) {
            return Err(DUPLICATE_CATEGORY);
        }
        let ghost before = self.categories@;
        self.categories.push(category);
        proof {
            assert(category_titles(self.categories@) =~= category_titles(before).push(
                trimmed(title@),
            ));
            lemma_push_fresh(category_titles(before), trimmed(title@));
        }
        Ok(())
    }

    /// Puts a tag with the title that `title` gives behind the tags of the
    /// list. A blank title is refused, and so is a title that a tag of the
    /// list has; the list then stays as it is.
    pub fn new_tag(&mut self, title: &str) -> (added: Result<(), &'static str>)
        ensures
            added == match old(self).tag_refusal(title@) {
                Some(e) => Err::<(), &str>(e),
                None => Ok(()),
            },
            added is Err ==> *final(self) == *old(self),
            added is Ok ==> {
                let tag = final(self).tags().last();
                &&& final(self).tags() == old(self).tags().push(tag)
                &&& tag@ == Tag::normal(title@)
                &&& final(self).tasks() == old(self).tasks()
                &&& final(self).categories() == old(self).categories()
            },
            old(self).wf() ==> final(self).wf(),
    {
        let tag = match Tag::new(title) {
            Ok(tag) => tag,
            Err(e) => {
                return Err(e);
            },
        };
        if holds_tag(&self.tags, &tag) {
            return Err(DUPLICATE_TAG);
        }
        let ghost before = self.tags@;
        self.tags.push(tag);
        proof {
            assert(titles(self.tags@) =~= titles(before).push(Tag::normal(title@)));
            lemma_push_fresh(titles(before), Tag::normal(title@));
        }
        Ok(())
    }

    /// The tasks that `by` selects, in the order of the list.
    pub fn get_tasks_by(&self, by: By) -> (found: Vec<&Task>)
        ensures
            referents(found@) == selected(self.tasks(), by),
    {
        let mut found: Vec<&Task> = Vec::new();
        let mut i: usize = 0;
        while i < self.tasks.len()
            invariant
                i <= self.tasks@.len(),
                referents(found@) == selected(self.tasks@.take(i as int), by),
            decreases self.tasks@.len() - i,
        {
            proof {
                assert(self.tasks@.take(i + 1) =~= self.tasks@.take(i as int).push(
                    self.tasks@[i as int],
                ));
                self.tasks@.take(i as int).lemma_filter_push(
                    self.tasks@[i as int],
                    |task: Task| by.selects(task@),
                );
            }
            if by.picks(&self.tasks[i]) {
                let ghost before = referents(found@);
                found.push(&self.tasks[i]);
                assert(referents(found@) =~= before.push(self.tasks@[i as int]));
            }
            i = i + 1;
        }
        assert(self.tasks@.take(i as int) =~= self.tasks@);
        found
    }
}

/// Whether one of `tasks` has `task`'s title.
fn holds_task(tasks: &Vec<Task>, task: &Task) -> (held: bool)
    ensures
        held == task_titles(tasks@).contains(task@.title),
{
    let mut i: usize = 0;
    while i < tasks.len()
        invariant
            i <= tasks@.len(),
            forall|j: int| 0 <= j < i ==> task_titles(tasks@)[j] != task@.title,
        decreases tasks@.len() - i,
    {
        if tasks[i] == *task {
            assert(task_titles(tasks@)[i as int] == task@.title);
            return true;
        }
        i = i + 1;
    }
    false
}

/// Whether one of `categories` has `category`'s title.
fn holds_category(categories: &Vec<Category>, category: &Category) -> (held: bool)
    ensures
        held == category_titles(categories@).contains(category@),
{
    let mut i: usize = 0;
    while i < categories.len()
        invariant
            i <= categories@.len(),
            forall|j: int| 0 <= j < i ==> category_titles(categories@)[j] != category@,
        decreases categories@.len() - i,
    {
        if categories[i] == *category {
            assert(category_titles(categories@)[i as int] == category@);
            return true;
        }
        i = i + 1;
    }
    false
}

/// Whether one of `tags` has `tag`'s title.
fn holds_tag(tags: &Vec<Tag>, tag: &Tag) -> (held: bool)
    ensures
        held == titles(tags@).contains(tag@),
{
    let mut i: usize = 0;
    while i < tags.len()
        invariant
            i <= tags@.len(),
            forall|j: int| 0 <= j < i ==> titles(tags@)[j] != tag@,
        decreases tags@.len() - i,
    {
        if tags[i] == *tag {
            assert(titles(tags@)[i as int] == tag@);
            return true;
        }
        i = i + 1;
    }
    false
}

/// Takes every task of `task`'s title out of `tasks`; the others keep their
/// order.
fn drop_task(tasks: &mut Vec<Task>, task: &Task)
    ensures
        final(tasks)@ == tasks_without(old(tasks)@, task@.title),
{
    let ghost before = tasks@;
    let ghost mut seen: int = 0;
    let mut i: usize = 0;
    while i < tasks.len()
        invariant
            i <= tasks@.len(),
            0 <= seen <= before.len(),
            tasks@.len() - i == before.len() - seen,
            tasks@.take(i as int) == tasks_without(before.take(seen), task@.title),
            tasks@.skip(i as int) == before.skip(seen),
        decreases tasks@.len() - i,
    {
        let ghost current = tasks@;
        proof {
            assert(current[i as int] == before[seen]) by {
                assert(current.skip(i as int)[0] == before.skip(seen)[0]);
            }
            assert(before.take(seen + 1) =~= before.take(seen).push(before[seen]));
            before.take(seen).lemma_filter_push(
                before[seen],
                |other: Task| other@.title != task@.title,
            );
        }
        if tasks[i] == *task {
            tasks.remove(i);
            proof {
                let rest = tasks@.skip(i as int);
                assert forall|k: int| 0 <= k < rest.len() implies #[trigger] rest[k] == before.skip(
                    seen + 1,
                )[k] by {
                    assert(current.skip(i as int)[k + 1] == before.skip(seen)[k + 1]);
                }
                assert(rest =~= before.skip(seen + 1));
                assert(tasks@.take(i as int) =~= current.take(i as int));
            }
        } else {
            proof {
                let rest = current.skip(i + 1);
                assert forall|k: int| 0 <= k < rest.len() implies #[trigger] rest[k] == before.skip(
                    seen + 1,
                )[k] by {
                    assert(current.skip(i as int)[k + 1] == before.skip(seen)[k + 1]);
                }
                assert(rest =~= before.skip(seen + 1));
                assert(current.take(i + 1) =~= current.take(i as int).push(current[i as int]));
            }
            i = i + 1;
        }
        proof {
            seen = seen + 1;
        }
    }
    proof {
        assert(tasks@.take(i as int) =~= tasks@);
        assert(before.take(seen) =~= before);
    }
}

/// A title that is not among `titles` can be put behind them without making
/// a duplicate, and is among them afterwards.
pub proof fn lemma_push_fresh(titles: Seq<Seq<char>>, title: Seq<char>)
    requires
        !titles.contains(title),
    ensures
        titles.no_duplicates() ==> titles.push(title).no_duplicates(),
        titles.push(title).contains(title),
{
    assert(titles.push(title)[titles.len() as int] == title);
}

/// Taking the tasks of one title out of `tasks` leaves no task of that
/// title, and makes no duplicate.
pub proof fn lemma_without_titles(tasks: Seq<Task>, title: Seq<char>)
    ensures
        !task_titles(tasks_without(tasks, title)).contains(title),
        forall|other: Seq<char>|
            task_titles(tasks_without(tasks, title)).contains(other) ==> task_titles(
                tasks,
            ).contains(other),
        task_titles(tasks).no_duplicates() ==> task_titles(
            tasks_without(tasks, title),
        ).no_duplicates(),
    decreases tasks.len(),
{
    reveal(Seq::filter);
    if tasks.len() > 0 {
        let front = tasks.drop_last();
        let last = tasks.last();
        lemma_without_titles(front, title);
        let kept = tasks_without(front, title);
        assert(task_titles(front) =~= task_titles(tasks).drop_last());
        if last@.title != title {
            assert(tasks_without(tasks, title) == kept.push(last));
            assert(task_titles(kept.push(last)) =~= task_titles(kept).push(last@.title));
            assert forall|other: Seq<char>|
                task_titles(kept.push(last)).contains(other) implies task_titles(tasks).contains(
                other,
            ) by {
                let k = choose|k: int|
                    0 <= k < kept.len() + 1 && task_titles(kept.push(last))[k] == other;
                if k < kept.len() {
                    assert(task_titles(kept)[k] == other);
                    assert(task_titles(kept).contains(other));
                    assert(task_titles(front).contains(other));
                    let j = choose|j: int| 0 <= j < front.len() && task_titles(front)[j] == other;
                    assert(task_titles(tasks)[j] == other);
                } else {
                    assert(task_titles(tasks)[tasks.len() - 1] == other);
                }
            }
            if task_titles(tasks).no_duplicates() {
                assert(task_titles(front).no_duplicates());
                if task_titles(kept).contains(last@.title) {
                    assert(task_titles(front).contains(last@.title));
                    let j = choose|j: int|
                        0 <= j < front.len() && task_titles(front)[j] == last@.title;
                    assert(task_titles(tasks)[j] == task_titles(tasks)[tasks.len() - 1]);
                }
                lemma_push_fresh(task_titles(kept), last@.title);
            }
        } else {
            assert(tasks_without(tasks, title) == kept);
            assert forall|other: Seq<char>|
                task_titles(kept).contains(other) implies task_titles(tasks).contains(other) by {
                assert(task_titles(front).contains(other));
                let j = choose|j: int| 0 <= j < front.len() && task_titles(front)[j] == other;
                assert(task_titles(tasks)[j] == other);
            }
        }
    }
}

} // verus!

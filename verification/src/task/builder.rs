use vstd::prelude::*;
use crate::ident::fresh_id;
use crate::task::{titles, Category, Priority, Tag, Task, TaskStatus, TaskView};
use crate::text::is_tight;
use crate::time::{clock_now, Timestamp};

verus! {

/// A task in the making: its title is fixed, the rest may still be chosen.
pub struct TaskBuilder {
    pub(super) title: String,
    pub(super) description: Option<String>,
    pub(super) status: Option<TaskStatus>,
    pub(super) category: Option<Category>,
    pub(super) tags: Option<Vec<Tag>>,
    pub(super) priority: Option<Priority>,
    pub(super) deadline: Option<Timestamp>,
}

/// What a builder holds: the title, and what was chosen so far.
pub struct BuilderView {
    pub title: Seq<char>,
    pub description: Option<Seq<char>>,
    pub status: Option<TaskStatus>,
    pub category: Option<Seq<char>>,
    pub tags: Option<Seq<Seq<char>>>,
    pub priority: Option<Priority>,
    pub deadline: Option<Timestamp>,
}

impl BuilderView {
    /// The builder of a task with the title `title`, nothing else chosen.
    pub open spec fn start(title: Seq<char>) -> BuilderView {
        BuilderView {
            title,
            description: None,
            status: None,
            category: None,
            tags: None,
            priority: None,
            deadline: None,
        }
    }

    /// The task that is built at the instant `now`: what was chosen, and for
    /// the rest an empty description, the status `Created`, the default
    /// category, no tags and the priority `Common`.
    pub open spec fn built(self, now: Timestamp) -> TaskView {
        TaskView {
            title: self.title,
            description: match self.description {
                Some(description) => description,
                None => Seq::empty(),
            },
            status: match self.status {
                Some(status) => status,
                None => TaskStatus::Created,
            },
            category: match self.category {
                Some(category) => category,
                None => Category::default_title(),
            },
            tags: match self.tags {
                Some(tags) => tags,
                None => Seq::empty(),
            },
            priority: match self.priority {
                Some(priority) => priority,
                None => Priority::Common,
            },
            created_at: now,
            updated_at: now,
            deadline: self.deadline,
        }
    }
}

impl BuilderView {
    /// A task is built with its last change at its creation.
    pub proof fn lemma_built_in_order(self, now: Timestamp)
        ensures
            self.built(now).in_order(),
            self.built(now).created_at == now,
            self.built(now).updated_at == now,
    {
    }
}

impl View for TaskBuilder {
    type V = BuilderView;

    /// What the builder holds.
    closed spec fn view(&self) -> BuilderView {
        BuilderView {
            title: self.title@,
            description: match self.description {
                Some(d) => Some(d@),
                None => None,
            },
            status: self.status,
            category: match self.category {
                Some(c) => Some(c@),
                None => None,
            },
            tags: match self.tags {
                Some(t) => Some(titles(t@)),
                None => None,
            },
            priority: self.priority,
            deadline: self.deadline,
        }
    }
}

impl TaskBuilder {
    /// The title of every builder is tight.
    #[verifier::type_invariant]
    spec fn wf(self) -> bool {
        is_tight(self.title@)
    }

    /// The builder of a task with the title `title`, nothing else chosen.
    pub(super) fn start(title: String) -> (builder: TaskBuilder)
        requires
            is_tight(title@),
        ensures
            builder@ == BuilderView::start(title@),
    {
        TaskBuilder {
            title,
            description: None,
            status: None,
            category: None,
            tags: None,
            priority: None,
            deadline: None,
        }
    }

    /// Chooses the description.
    pub fn description(self, description: &str) -> (builder: TaskBuilder)
        ensures
            builder@ == (BuilderView { description: Some(description@), ..self@ }),
    {
        proof {
            use_type_invariant(&self);
        }
        let mut builder = self;
        builder.description = Some(description.to_owned());
        builder
    }

    /// Chooses the status.
    pub fn status(self, status: TaskStatus) -> (builder: TaskBuilder)
        ensures
            builder@ == (BuilderView { status: Some(status), ..self@ }),
    {
        proof {
            use_type_invariant(&self);
        }
        let mut builder = self;
        builder.status = Some(status);
        builder
    }

    /// Chooses the category.
    pub fn category(self, category: Category) -> (builder: TaskBuilder)
        ensures
            builder@ == (BuilderView { category: Some(category@), ..self@ }),
    {
        proof {
            use_type_invariant(&self);
        }
        let mut builder = self;
        builder.category = Some(category);
        builder
    }

    /// Chooses the tags: copies of `tags`, in their order.
    pub fn tags(self, tags: &[Tag]) -> (builder: TaskBuilder)
        ensures
            builder@ == (BuilderView { tags: Some(titles(tags@)), ..self@ }),
    {
        proof {
            use_type_invariant(&self);
        }
        let mut copies: Vec<Tag> = Vec::new();
        let mut i: usize = 0;
        while i < tags.len()
            invariant
                i <= tags@.len(),
                copies@.len() == i,
                forall|j: int| 0 <= j < i ==> (#[trigger] copies@[j])@ == tags@[j]@,
            decreases tags@.len() - i,
        {
            copies.push(tags[i].clone());
            i = i + 1;
        }
        assert(titles(copies@) =~= titles(tags@));
        let mut builder = self;
        builder.tags = Some(copies);
        builder
    }

    /// Chooses the priority.
    pub fn priority(self, priority: Priority) -> (builder: TaskBuilder)
        ensures
            builder@ == (BuilderView { priority: Some(priority), ..self@ }),
    {
        proof {
            use_type_invariant(&self);
        }
        let mut builder = self;
        builder.priority = Some(priority);
        builder
    }

    /// Chooses the deadline.
    pub fn deadline(self, deadline: Timestamp) -> (builder: TaskBuilder)
        ensures
            builder@ == (BuilderView { deadline: Some(deadline), ..self@ }),
    {
        proof {
            use_type_invariant(&self);
        }
        let mut builder = self;
        builder.deadline = Some(deadline);
        builder
    }

    /// Builds the task at the present reading of the clock.
    pub fn build(self) -> (task: Task)
        ensures
            task@ == self@.built(task@.created_at),
    {
        self.build_at(clock_now())
    }

    /// Builds the task with `now` as the instant of its creation and of its
    /// last change.
    pub fn build_at(self, now: Timestamp) -> (task: Task)
        ensures
            task@ == self@.built(now),
    {
        proof {
            use_type_invariant(&self);
        }
        let ghost before = self@;
        let task = Task {
            id: fresh_id(),
            title: self.title,
            description: self.description.unwrap_or_default(),
            status: self.status.unwrap_or_default(),
            category: self.category.unwrap_or_default(),
            tags: self.tags.unwrap_or_default(),
            priority: self.priority.unwrap_or_default(),
            created_at: now,
            updated_at: now,
            deadline: self.deadline,
        };
        assert(task@.tags =~= before.built(now).tags);
        task
    }
}

} // verus!

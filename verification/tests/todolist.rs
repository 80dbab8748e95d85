use todo_list::prelude::load::TodoListLoad;
use todo_list::prelude::{Category, Priority, Tag, Task, TaskStatus, Timestamp};
use todo_list::{By, TodoList, DUPLICATE_CATEGORY, DUPLICATE_TAG, DUPLICATE_TASK, TASK_NOT_FOUND};

struct TestTodoListLoader;
impl TodoListLoad for TestTodoListLoader {
    fn get_todolist_categories(&self) -> Vec<Category> {
        vec![]
    }

    fn get_todolist_tags(&self) -> Vec<Tag> {
        vec![]
    }

    fn get_todolist_tasks(&self) -> Vec<Task> {
        vec![]
    }
}

struct FixedLoader;
impl TodoListLoad for FixedLoader {
    fn get_todolist_categories(&self) -> Vec<Category> {
        vec![Category::new("Work").unwrap(), Category::new("Home").unwrap()]
    }

    fn get_todolist_tags(&self) -> Vec<Tag> {
        vec![Tag::new("urgent").unwrap()]
    }

    fn get_todolist_tasks(&self) -> Vec<Task> {
        vec![
            Task::new("one")
                .unwrap()
                .tags(&[Tag::new("urgent").unwrap()])
                .category(Category::new("Work").unwrap())
                .priority(Priority::Red)
                .build(),
            Task::new("two").unwrap().status(TaskStatus::Progress).build(),
            Task::new("three")
                .unwrap()
                .tags(&[Tag::new("later").unwrap(), Tag::new("urgent").unwrap()])
                .category(Category::new("Work").unwrap())
                .status(TaskStatus::Progress)
                .build(),
        ]
    }
}

fn task_titles(list: &TodoList) -> Vec<&str> {
    list.get_tasks().iter().map(|task| task.get_title()).collect()
}

fn found_titles<'a>(found: &[&'a Task]) -> Vec<&'a str> {
    found.iter().map(|task| task.get_title()).collect()
}

#[test]
fn empty_tasks_list_after_init() {
    let todolist = TodoList::init(TestTodoListLoader);
    assert!(todolist.get_tasks().is_empty());
}

#[test]
fn empty_categories_after_init() {
    let todolist = TodoList::init(TestTodoListLoader);
    assert!(todolist.get_categories().is_empty());
}

#[test]
fn empty_tags_after_init() {
    let todolist = TodoList::init(TestTodoListLoader);
    assert!(todolist.get_tags().is_empty());
}

#[test]
fn init_takes_what_the_loader_supplies() {
    let list = TodoList::init(FixedLoader);
    assert_eq!(task_titles(&list), vec!["one", "two", "three"]);
    assert_eq!(
        list.get_categories(),
        &vec![Category::new("Work").unwrap(), Category::new("Home").unwrap()]
    );
    assert_eq!(list.get_tags(), &vec![Tag::new("urgent").unwrap()]);
}

#[test]
fn from_parts_takes_the_parts_as_they_come() {
    let list = TodoList::from_parts(
        vec![Task::new("b").unwrap().build(), Task::new("a").unwrap().build()],
        vec![Category::new("Work").unwrap()],
        vec![Tag::new("x").unwrap(), Tag::new("y").unwrap()],
    );
    assert_eq!(task_titles(&list), vec!["b", "a"]);
    assert_eq!(list.get_categories(), &vec![Category::new("Work").unwrap()]);
    assert_eq!(list.get_tags(), &vec![Tag::new("x").unwrap(), Tag::new("y").unwrap()]);
}

#[test]
fn buy_milk_once() {
    let mut list = TodoList::init(TestTodoListLoader);
    assert_eq!(list.new_task("Buy milk", "2 liters"), Ok(()));
    assert_eq!(list.get_tasks().len(), 1);
    assert_eq!(list.get_tasks()[0].get_title(), "Buy milk");
    assert_eq!(list.get_tasks()[0].get_description(), "2 liters");

    assert_eq!(list.new_task("Buy milk", "anything"), Err(DUPLICATE_TASK));
    assert_eq!(list.get_tasks().len(), 1);
    assert_eq!(list.get_tasks()[0].get_title(), "Buy milk");
    assert_eq!(list.get_tasks()[0].get_description(), "2 liters");
    assert_eq!(DUPLICATE_TASK, "A task with same title is already exists");
}

#[test]
fn new_task_has_the_defaults() {
    let mut list = TodoList::init(TestTodoListLoader);
    list.new_task("  Ship ", "the release").unwrap();
    let task = &list.get_tasks()[0];
    assert_eq!(task.get_title(), "Ship");
    assert_eq!(task.get_description(), "the release");
    assert_eq!(task.get_status(), &TaskStatus::Created);
    assert_eq!(task.get_category().get_title(), "Default");
    assert!(task.get_tags().is_empty());
    assert_eq!(task.get_priority(), &Priority::Common);
    assert_eq!(task.get_created_at(), task.get_updated_at());
    assert!(!task.has_deadline());
    assert!(list.get_categories().is_empty());
    assert!(list.get_tags().is_empty());
}

#[test]
fn new_task_goes_behind_the_others() {
    let mut list = TodoList::init(FixedLoader);
    list.new_task("four", "").unwrap();
    list.new_task("zero", "").unwrap();
    assert_eq!(task_titles(&list), vec!["one", "two", "three", "four", "zero"]);
}

#[test]
fn new_task_refuses_a_blank_title() {
    let mut list = TodoList::init(FixedLoader);
    for blank in ["", "  ", "\t\n"] {
        assert_eq!(list.new_task(blank, "d"), Err(todo_list::task::EMPTY_TITLE));
        assert_eq!(task_titles(&list), vec!["one", "two", "three"]);
    }
}

#[test]
fn new_task_compares_the_trimmed_title() {
    let mut list = TodoList::init(TestTodoListLoader);
    list.new_task("Buy milk", "").unwrap();
    assert_eq!(list.new_task("  Buy milk", ""), Err(DUPLICATE_TASK));
    assert_eq!(list.new_task("Buy milk\n", ""), Err(DUPLICATE_TASK));
    assert_eq!(list.new_task(" Buy milk ", ""), Err(DUPLICATE_TASK));
    assert_eq!(list.get_tasks().len(), 1);
    assert_eq!(list.new_task("Buy  milk", ""), Ok(()));
    assert_eq!(list.new_task("buy milk", ""), Ok(()));
    assert_eq!(task_titles(&list), vec!["Buy milk", "Buy  milk", "buy milk"]);
}

#[test]
fn new_category_adds_refuses_duplicates_and_blanks() {
    let mut list = TodoList::init(TestTodoListLoader);
    assert_eq!(list.new_category(" Work "), Ok(()));
    assert_eq!(list.new_category("Home"), Ok(()));
    assert_eq!(list.new_category("Work"), Err(DUPLICATE_CATEGORY));
    assert_eq!(list.new_category("  Work\t"), Err(DUPLICATE_CATEGORY));
    assert_eq!(list.new_category("   "), Err(todo_list::task::category::EMPTY_TITLE));
    assert_eq!(list.new_category(""), Err(todo_list::task::category::EMPTY_TITLE));
    assert_eq!(
        list.get_categories(),
        &vec![Category::new("Work").unwrap(), Category::new("Home").unwrap()]
    );
    assert!(list.get_tasks().is_empty());
    assert!(list.get_tags().is_empty());
    assert_eq!(DUPLICATE_CATEGORY, "The category with same title is already exists");
}

#[test]
fn new_tag_adds_refuses_duplicates_and_blanks() {
    let mut list = TodoList::init(TestTodoListLoader);
    assert_eq!(list.new_tag(" two words "), Ok(()));
    assert_eq!(list.new_tag("urgent"), Ok(()));
    assert_eq!(list.new_tag("two words"), Err(DUPLICATE_TAG));
    assert_eq!(list.new_tag("two_words"), Err(DUPLICATE_TAG));
    assert_eq!(list.new_tag("  urgent"), Err(DUPLICATE_TAG));
    assert_eq!(list.new_tag(" \t "), Err(todo_list::task::tag::EMPTY_TITLE));
    assert_eq!(list.new_tag(""), Err(todo_list::task::tag::EMPTY_TITLE));
    assert_eq!(
        list.get_tags(),
        &vec![Tag::new("two_words").unwrap(), Tag::new("urgent").unwrap()]
    );
    assert_eq!(list.get_tags()[0].get_title(), "two_words");
    assert!(list.get_tasks().is_empty());
    assert!(list.get_categories().is_empty());
    assert_eq!(DUPLICATE_TAG, "The tag is already exists");
}

#[test]
fn remove_task_takes_the_task_of_that_title() {
    let mut list = TodoList::init(FixedLoader);
    assert_eq!(list.remove_task(Task::new("two").unwrap().build()), Ok(()));
    assert_eq!(task_titles(&list), vec!["one", "three"]);
    assert_eq!(list.remove_task(Task::new(" one ").unwrap().build()), Ok(()));
    assert_eq!(task_titles(&list), vec!["three"]);
    assert_eq!(list.remove_task(Task::new("three").unwrap().build()), Ok(()));
    assert!(list.get_tasks().is_empty());
    assert_eq!(list.get_categories().len(), 2);
    assert_eq!(list.get_tags().len(), 1);
}

#[test]
fn remove_task_reports_a_task_that_is_not_there() {
    let mut list = TodoList::init(FixedLoader);
    assert_eq!(list.remove_task(Task::new("four").unwrap().build()), Err(TASK_NOT_FOUND));
    assert_eq!(task_titles(&list), vec!["one", "two", "three"]);
    list.remove_task(Task::new("two").unwrap().build()).unwrap();
    assert_eq!(list.remove_task(Task::new("two").unwrap().build()), Err(TASK_NOT_FOUND));
    assert_eq!(task_titles(&list), vec!["one", "three"]);
    let mut empty = TodoList::init(TestTodoListLoader);
    assert_eq!(empty.remove_task(Task::new("one").unwrap().build()), Err(TASK_NOT_FOUND));
    assert_eq!(TASK_NOT_FOUND, "THe task is not exists");
}

#[test]
fn removed_title_can_be_taken_again() {
    let mut list = TodoList::init(TestTodoListLoader);
    list.new_task("Buy milk", "").unwrap();
    list.remove_task(Task::new("Buy milk").unwrap().build()).unwrap();
    assert_eq!(list.new_task("Buy milk", "again"), Ok(()));
    assert_eq!(list.get_tasks().len(), 1);
    assert_eq!(list.get_tasks()[0].get_description(), "again");
}

#[test]
fn remove_task_takes_every_task_of_the_title() {
    let mut list = TodoList::from_parts(
        vec![
            Task::new("a").unwrap().build(),
            Task::new("x").unwrap().build(),
            Task::new("b").unwrap().build(),
            Task::new("x").unwrap().build(),
        ],
        vec![],
        vec![],
    );
    assert_eq!(list.remove_task(Task::new("x").unwrap().build()), Ok(()));
    assert_eq!(task_titles(&list), vec!["a", "b"]);
}

#[test]
fn tasks_by_tag_in_their_order() {
    let list = TodoList::init(FixedLoader);
    let urgent = Tag::new("urgent").unwrap();
    let found = list.get_tasks_by(By::Tag(&urgent));
    assert_eq!(found.len(), 2);
    assert_eq!(found_titles(&found), vec!["one", "three"]);
    assert!(std::ptr::eq(found[0], &list.get_tasks()[0]));
    assert!(std::ptr::eq(found[1], &list.get_tasks()[2]));

    let later = Tag::new("later").unwrap();
    assert_eq!(found_titles(&list.get_tasks_by(By::Tag(&later))), vec!["three"]);
    let absent = Tag::new("absent").unwrap();
    assert!(list.get_tasks_by(By::Tag(&absent)).is_empty());
}

#[test]
fn tasks_by_category() {
    let list = TodoList::init(FixedLoader);
    let work = Category::new("Work").unwrap();
    assert_eq!(found_titles(&list.get_tasks_by(By::Category(&work))), vec!["one", "three"]);
    let default = Category::default();
    assert_eq!(found_titles(&list.get_tasks_by(By::Category(&default))), vec!["two"]);
    let home = Category::new("Home").unwrap();
    assert!(list.get_tasks_by(By::Category(&home)).is_empty());
}

#[test]
fn tasks_by_priority() {
    let list = TodoList::init(FixedLoader);
    assert_eq!(found_titles(&list.get_tasks_by(By::Priority(Priority::Red))), vec!["one"]);
    assert_eq!(
        found_titles(&list.get_tasks_by(By::Priority(Priority::Common))),
        vec!["two", "three"]
    );
    assert!(list.get_tasks_by(By::Priority(Priority::Green)).is_empty());
}

#[test]
fn tasks_by_status() {
    let list = TodoList::init(FixedLoader);
    assert_eq!(
        found_titles(&list.get_tasks_by(By::Status(TaskStatus::Progress))),
        vec!["two", "three"]
    );
    assert_eq!(found_titles(&list.get_tasks_by(By::Status(TaskStatus::Created))), vec!["one"]);
    assert!(list.get_tasks_by(By::Status(TaskStatus::Archived)).is_empty());
}

#[test]
fn nothing_is_found_in_an_empty_list() {
    let list = TodoList::init(TestTodoListLoader);
    assert!(list.get_tasks_by(By::Priority(Priority::Common)).is_empty());
    assert!(list.get_tasks_by(By::Status(TaskStatus::Created)).is_empty());
}

#[test]
fn by_picks_what_it_selects() {
    let task = Task::new("one")
        .unwrap()
        .tags(&[Tag::new("urgent").unwrap()])
        .priority(Priority::Yellow)
        .build_at(Timestamp::new(0, 0).unwrap());
    let urgent = Tag::new("urgent").unwrap();
    let other = Tag::new("other").unwrap();
    let default = Category::default();
    let work = Category::new("Work").unwrap();
    assert!(By::Tag(&urgent).picks(&task));
    assert!(!By::Tag(&other).picks(&task));
    assert!(By::Category(&default).picks(&task));
    assert!(!By::Category(&work).picks(&task));
    assert!(By::Priority(Priority::Yellow).picks(&task));
    assert!(!By::Priority(Priority::Red).picks(&task));
    assert!(By::Status(TaskStatus::Created).picks(&task));
    assert!(!By::Status(TaskStatus::Completed).picks(&task));
}

use trenako::common::queries::aggregate::{Aggregate, AggregateRoot, WithId, WithRootId};
use trenako::common::queries::converters::{ConversionErrors, ToOutputConverter};

pub struct TestAggregate;

impl Aggregate for TestAggregate {
    type Id = u32;
    type RootRowType = RootRow;
    type ChildRowType = ChildRow;
    type RootOutput = Root;
    type ChildOutput = Child;
}

#[derive(Debug)]
pub struct RootRow {
    pub id: u32,
    pub label: String,
}

impl WithId<u32> for RootRow {
    fn id(&self) -> &u32 {
        &self.id
    }
}

impl ToOutputConverter<Root> for RootRow {
    fn to_output(self) -> Result<Root, ConversionErrors> {
        if self.id == 0 {
            Err(ConversionErrors::new())
        } else {
            Ok(Root {
                id: self.id,
                label: self.label,
                children: Vec::new(),
            })
        }
    }
}

#[derive(Debug)]
pub struct Root {
    pub id: u32,
    pub label: String,
    pub children: Vec<Child>,
}

impl AggregateRoot<u32, Child> for Root {
    fn id(&self) -> &u32 {
        &self.id
    }

    fn add_child(&mut self, child: Child) {
        self.children.push(child);
    }

    fn add_children(&mut self, children: Vec<Child>) {
        self.children = children;
    }
}

#[derive(Debug)]
pub struct ChildRow {
    pub id: u32,
    pub root_id: u32,
    pub label: String,
}

impl WithRootId<u32> for ChildRow {
    fn root_id(&self) -> &u32 {
        &self.root_id
    }
}

impl ToOutputConverter<Child> for ChildRow {
    fn to_output(self) -> Result<Child, ConversionErrors> {
        if self.id == 0 {
            Err(ConversionErrors::new())
        } else {
            Ok(Child {
                id: self.id,
                root_id: self.root_id,
                label: self.label,
            })
        }
    }
}

#[derive(Debug)]
pub struct Child {
    pub id: u32,
    pub root_id: u32,
    pub label: String,
}

#[test]
fn it_should_return_a_conversion_error_when_it_is_not_possible_to_convert_the_root() {
    let root = Some(RootRow {
        id: 0,
        label: String::from("test"),
    });

    let result = TestAggregate::init(root, Vec::new());

    assert!(result.is_err());
}

#[test]
fn it_should_return_a_conversion_error_when_it_is_not_possible_to_convert_the_child() {
    let root = Some(RootRow {
        id: 42,
        label: String::from("test"),
    });
    let child = ChildRow {
        id: 0,
        root_id: 42,
        label: String::from("child 1"),
    };
    let result = TestAggregate::init(root, vec![child]);

    assert!(result.is_err());
}

#[test]
fn it_should_return_a_none_when_there_is_no_root_row() {
    let result = TestAggregate::init(None, Vec::new());

    assert!(result.is_ok());

    let root = result.unwrap();
    assert!(root.is_none());
}

#[test]
fn it_should_join_one_root_row_with_no_children_row() {
    let root = Some(RootRow {
        id: 42,
        label: String::from("test"),
    });

    let result = TestAggregate::init(root, Vec::new());

    assert!(result.is_ok());

    let root = result.unwrap().expect("root is empty");
    assert_eq!(root.id, 42);
    assert_eq!(root.label, "test");
    assert_eq!(root.children.len(), 0);
}

#[test]
fn it_should_join_one_root_row_with_children_rows() {
    let root = Some(RootRow {
        id: 42,
        label: String::from("test"),
    });

    let child1 = ChildRow {
        id: 1,
        root_id: 42,
        label: String::from("child 1"),
    };
    let child2 = ChildRow {
        id: 2,
        root_id: 42,
        label: String::from("child 2"),
    };

    let result = TestAggregate::init(root, vec![child1, child2]);

    assert!(result.is_ok());

    let root = result.unwrap().expect("root is empty");
    assert_eq!(root.id, 42);
    assert_eq!(root.label, "test");
    assert_eq!(root.children.len(), 2);
    assert_eq!(root.children[0].id, 1);
    assert_eq!(root.children[0].label, "child 1");
    assert_eq!(root.children[1].id, 2);
    assert_eq!(root.children[1].label, "child 2");
}

#[test]
fn it_should_join_one_root_row_with_children_rows_with_the_same_root_it() {
    let root = Some(RootRow {
        id: 42,
        label: String::from("test"),
    });

    let child1 = ChildRow {
        id: 1,
        root_id: 42,
        label: String::from("child 1"),
    };
    let child2 = ChildRow {
        id: 2,
        root_id: 42,
        label: String::from("child 2"),
    };
    let child3 = ChildRow {
        id: 3,
        root_id: 41,
        label: String::from("child 3"),
    };

    let result = TestAggregate::init(root, vec![child1, child2, child3]);

    assert!(result.is_ok());

    let root = result.unwrap().expect("root is empty");
    assert_eq!(root.id, 42);
    assert_eq!(root.label, "test");
    assert_eq!(root.children.len(), 2);
    assert_eq!(root.children[0].id, 1);
    assert_eq!(root.children[0].label, "child 1");
    assert_eq!(root.children[1].id, 2);
    assert_eq!(root.children[1].label, "child 2");
    assert_eq!(root.children[2 - 1].root_id, 42);
}

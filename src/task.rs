use vstd::prelude::*;

verus! {

/// One work item. A task never changes once it has been made.
#[derive(Debug, PartialEq, Eq)]
pub struct Task {
    pub id: u32,
    pub title: String,
    pub description: String,
}

impl Task {
    pub fn new(id: u32, title: String, description: String) -> (r: Task)
        ensures
            r.id == id,
            r.title == title,
            r.description == description,
    {
        Task { id, title, description }
    }
}

impl Clone for Task {
    fn clone(&self) -> (r: Self)
        ensures
            r == *self,
    {
        Task { id: self.id, title: self.title.clone(), description: self.description.clone() }
    }
}

/// The descriptor of a pile. Its id is assigned by the registry and never
/// reused; `is_stack` fixes the end from which tasks are removed.
#[derive(Debug, PartialEq, Eq)]
pub struct PileInfo {
    pub id: u32,
    pub name: String,
    pub description: String,
    pub is_stack: bool,
}

impl PileInfo {
    pub fn new(id: u32, name: String, description: String, is_stack: bool) -> (r: PileInfo)
        ensures
            r.id == id,
            r.name == name,
            r.description == description,
            r.is_stack == is_stack,
    {
        PileInfo { id, name, description, is_stack }
    }
}

impl Clone for PileInfo {
    fn clone(&self) -> (r: Self)
        ensures
            r == *self,
    {
        PileInfo {
            id: self.id,
            name: self.name.clone(),
            description: self.description.clone(),
            is_stack: self.is_stack,
        }
    }
}

/// What a caller supplies to ask for a new pile.
#[derive(Debug, PartialEq, Eq)]
pub struct CreatePileDTO {
    pub name: String,
    pub description: String,
    pub is_stack: bool,
}

impl CreatePileDTO {
    pub fn new(name: String, description: String, is_stack: bool) -> (r: CreatePileDTO)
        ensures
            r.name == name,
            r.description == description,
            r.is_stack == is_stack,
    {
        CreatePileDTO { name, description, is_stack }
    }
}

impl Clone for CreatePileDTO {
    fn clone(&self) -> (r: Self)
        ensures
            r == *self,
    {
        CreatePileDTO {
            name: self.name.clone(),
            description: self.description.clone(),
            is_stack: self.is_stack,
        }
    }
}

} // verus!

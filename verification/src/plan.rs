//! The plan node that asks for a query to be explained.

use crate::error::ErrorCode;
use crate::schema::{share, DataSchemaRef};
use std::sync::Arc;
use vstd::prelude::*;

verus! {

/// What a planner's function returns.
pub type PlannerResult<T> = Result<T, ErrorCode>;

/// How a query is to be explained.
#[derive(Clone, Copy, Debug, PartialEq, Eq, Structural)]
pub enum DfExplainType {
    Syntax,
    Graph,
    Pipeline,
}

/// A node of a query plan, as far as an explanation reads it: the schema of
/// the rows that it yields.
#[derive(Debug)]
pub struct PlanNode {
    pub schema: DataSchemaRef,
}

impl PlanNode {
    pub fn new(schema: DataSchemaRef) -> (node: PlanNode)
        ensures
            node.schema == schema,
    {
        PlanNode { schema }
    }

    pub fn schema(&self) -> (s: DataSchemaRef)
        ensures
            s == self.schema,
    {
        share(&self.schema)
    }
}

impl Clone for PlanNode {
    fn clone(&self) -> (node: PlanNode)
        ensures
            node == *self,
    {
        PlanNode { schema: share(&self.schema) }
    }
}

/// A request to explain the plan under `input`.
pub struct ExplainPlan {
    pub typ: DfExplainType,
    pub input: Arc<PlanNode>,
}

impl Clone for ExplainPlan {
    fn clone(&self) -> (plan: ExplainPlan)
        ensures
            plan == *self,
    {
        ExplainPlan { typ: self.typ, input: share(&self.input) }
    }
}

impl ExplainPlan {
    /// The schema of the plan that is explained.
    pub fn schema(&self) -> (s: DataSchemaRef)
        ensures
            s == self.input.schema,
    {
        self.input.schema()
    }

    /// The plan that is explained.
    pub fn input(&self) -> (node: Arc<PlanNode>)
        ensures
            node == self.input,
    {
        share(&self.input)
    }

    /// Puts a copy of `input` in the place of the plan that is explained.
    pub fn set_input(&mut self, input: &PlanNode) -> (r: PlannerResult<()>)
        ensures
            r is Ok,
            final(self).input == *input,
            final(self).typ == old(self).typ,
    {
        self.input = Arc::new(input.clone());
        Ok(())
    }
}

} // verus!

//! Location maps: for each shape of construct, the ranges of its keywords,
//! operators and brackets beside the range of the whole.

use vstd::prelude::*;
use crate::loc::Loc;

verus! {

/// True when `part`, if it is there, lies within `whole`.
pub open spec fn optional_within(part: Option<Loc>, whole: Loc) -> bool {
    match part {
        Some(loc) => loc.within(whole),
        None => true,
    }
}

/// The ranges of a construct that has nothing but its extent.
#[derive(Debug, Clone, Copy, PartialEq, Eq, Structural)]
pub struct ExpressionMap {
    pub expression: Loc,
}

impl ExpressionMap {
    /// True when every range that the map holds lies within the range of
    /// the whole construct.
    pub open spec fn well_formed(self) -> bool {
        self.expression.begin <= self.expression.end
    }
}

/// The ranges of a bracketed collection.
#[derive(Debug, Clone, Copy, PartialEq, Eq, Structural)]
pub struct CollectionMap {
    pub expression: Loc,
    pub begin: Option<Loc>,
    pub end: Option<Loc>,
}

impl CollectionMap {
    /// True when every range that the map holds lies within the range of
    /// the whole construct.
    pub open spec fn well_formed(self) -> bool {
        &&& optional_within(self.begin, self.expression)
        &&& optional_within(self.end, self.expression)
    }
}

/// The ranges of a construct with an operator.
#[derive(Debug, Clone, Copy, PartialEq, Eq, Structural)]
pub struct OperatorMap {
    pub expression: Loc,
    pub operator: Option<Loc>,
}

impl OperatorMap {
    /// True when every range that the map holds lies within the range of
    /// the whole construct.
    pub open spec fn well_formed(self) -> bool {
        &&& optional_within(self.operator, self.expression)
    }
}

/// The ranges of a method call.
#[derive(Debug, Clone, Copy, PartialEq, Eq, Structural)]
pub struct SendMap {
    pub expression: Loc,
    pub dot: Option<Loc>,
    pub selector: Option<Loc>,
    pub operator: Option<Loc>,
    pub begin: Option<Loc>,
    pub end: Option<Loc>,
}

impl SendMap {
    /// True when every range that the map holds lies within the range of
    /// the whole construct.
    pub open spec fn well_formed(self) -> bool {
        &&& optional_within(self.dot, self.expression)
        &&& optional_within(self.selector, self.expression)
        &&& optional_within(self.operator, self.expression)
        &&& optional_within(self.begin, self.expression)
        &&& optional_within(self.end, self.expression)
    }
}

/// The ranges of a variable.
#[derive(Debug, Clone, Copy, PartialEq, Eq, Structural)]
pub struct VariableMap {
    pub expression: Loc,
    pub name: Option<Loc>,
    pub operator: Option<Loc>,
}

impl VariableMap {
    /// True when every range that the map holds lies within the range of
    /// the whole construct.
    pub open spec fn well_formed(self) -> bool {
        &&& optional_within(self.name, self.expression)
        &&& optional_within(self.operator, self.expression)
    }
}

/// The ranges of a construct that a keyword opens.
#[derive(Debug, Clone, Copy, PartialEq, Eq, Structural)]
pub struct KeywordMap {
    pub expression: Loc,
    pub keyword: Loc,
    pub begin: Option<Loc>,
    pub end: Option<Loc>,
}

impl KeywordMap {
    /// True when every range that the map holds lies within the range of
    /// the whole construct.
    pub open spec fn well_formed(self) -> bool {
        &&& self.keyword.within(self.expression)
        &&& optional_within(self.begin, self.expression)
        &&& optional_within(self.end, self.expression)
    }
}

/// The ranges of a conditional.
#[derive(Debug, Clone, Copy, PartialEq, Eq, Structural)]
pub struct ConditionMap {
    pub expression: Loc,
    pub keyword: Option<Loc>,
    pub begin: Option<Loc>,
    pub end: Option<Loc>,
    pub else_: Option<Loc>,
}

impl ConditionMap {
    /// True when every range that the map holds lies within the range of
    /// the whole construct.
    pub open spec fn well_formed(self) -> bool {
        &&& optional_within(self.keyword, self.expression)
        &&& optional_within(self.begin, self.expression)
        &&& optional_within(self.end, self.expression)
        &&& optional_within(self.else_, self.expression)
    }
}

/// The ranges of a method definition.
#[derive(Debug, Clone, Copy, PartialEq, Eq, Structural)]
pub struct MethodDefinitionMap {
    pub keyword: Loc,
    pub operator: Option<Loc>,
    pub name: Loc,
    pub end: Option<Loc>,
    pub assignment: Option<Loc>,
    pub expression: Loc,
}

impl MethodDefinitionMap {
    /// True when every range that the map holds lies within the range of
    /// the whole construct.
    pub open spec fn well_formed(self) -> bool {
        &&& self.keyword.within(self.expression)
        &&& optional_within(self.operator, self.expression)
        &&& self.name.within(self.expression)
        &&& optional_within(self.end, self.expression)
        &&& optional_within(self.assignment, self.expression)
    }
}

/// The ranges of a constant.
#[derive(Debug, Clone, Copy, PartialEq, Eq, Structural)]
pub struct ConstantMap {
    pub double_colon: Option<Loc>,
    pub name: Loc,
    pub operator: Option<Loc>,
    pub expression: Loc,
}

impl ConstantMap {
    /// True when every range that the map holds lies within the range of
    /// the whole construct.
    pub open spec fn well_formed(self) -> bool {
        &&& optional_within(self.double_colon, self.expression)
        &&& self.name.within(self.expression)
        &&& optional_within(self.operator, self.expression)
    }
}

/// The ranges of an index expression.
#[derive(Debug, Clone, Copy, PartialEq, Eq, Structural)]
pub struct IndexMap {
    pub begin: Loc,
    pub end: Loc,
    pub operator: Option<Loc>,
    pub expression: Loc,
}

impl IndexMap {
    /// True when every range that the map holds lies within the range of
    /// the whole construct.
    pub open spec fn well_formed(self) -> bool {
        &&& self.begin.within(self.expression)
        &&& self.end.within(self.expression)
        &&& optional_within(self.operator, self.expression)
    }
}

/// The ranges of a `rescue` clause.
#[derive(Debug, Clone, Copy, PartialEq, Eq, Structural)]
pub struct RescueBodyMap {
    pub expression: Loc,
    pub keyword: Loc,
    pub assoc: Option<Loc>,
    pub begin: Option<Loc>,
}

impl RescueBodyMap {
    /// True when every range that the map holds lies within the range of
    /// the whole construct.
    pub open spec fn well_formed(self) -> bool {
        &&& self.keyword.within(self.expression)
        &&& optional_within(self.assoc, self.expression)
        &&& optional_within(self.begin, self.expression)
    }
}

/// The ranges of an assignment with an operator.
#[derive(Debug, Clone, Copy, PartialEq, Eq, Structural)]
pub struct OpAssignMap {
    pub expression: Loc,
    pub operator: Loc,
}

impl OpAssignMap {
    /// True when every range that the map holds lies within the range of
    /// the whole construct.
    pub open spec fn well_formed(self) -> bool {
        &&& self.operator.within(self.expression)
    }
}

/// The ranges of a class or module definition.
#[derive(Debug, Clone, Copy, PartialEq, Eq, Structural)]
pub struct DefinitionMap {
    pub expression: Loc,
    pub keyword: Loc,
    pub operator: Option<Loc>,
    pub name: Option<Loc>,
    pub end: Loc,
}

impl DefinitionMap {
    /// True when every range that the map holds lies within the range of
    /// the whole construct.
    pub open spec fn well_formed(self) -> bool {
        &&& self.keyword.within(self.expression)
        &&& optional_within(self.operator, self.expression)
        &&& optional_within(self.name, self.expression)
        &&& self.end.within(self.expression)
    }
}

/// The ranges of a conditional with `?` and `:`.
#[derive(Debug, Clone, Copy, PartialEq, Eq, Structural)]
pub struct TernaryMap {
    pub expression: Loc,
    pub question: Loc,
    pub colon: Loc,
}

impl TernaryMap {
    /// True when every range that the map holds lies within the range of
    /// the whole construct.
    pub open spec fn well_formed(self) -> bool {
        &&& self.question.within(self.expression)
        &&& self.colon.within(self.expression)
    }
}

/// The ranges of a `for` loop.
#[derive(Debug, Clone, Copy, PartialEq, Eq, Structural)]
pub struct ForMap {
    pub expression: Loc,
    pub keyword: Loc,
    pub in_: Loc,
    pub begin: Loc,
    pub end: Loc,
}

impl ForMap {
    /// True when every range that the map holds lies within the range of
    /// the whole construct.
    pub open spec fn well_formed(self) -> bool {
        &&& self.keyword.within(self.expression)
        &&& self.in_.within(self.expression)
        &&& self.begin.within(self.expression)
        &&& self.end.within(self.expression)
    }
}

/// The ranges of a here document.
#[derive(Debug, Clone, Copy, PartialEq, Eq, Structural)]
pub struct HeredocMap {
    pub heredoc_body: Loc,
    pub heredoc_end: Loc,
    pub expression: Loc,
}

impl HeredocMap {
    /// True when every range that the map holds lies within the range of
    /// the whole construct.
    pub open spec fn well_formed(self) -> bool {
        &&& self.heredoc_body.within(self.expression)
        &&& self.heredoc_end.within(self.expression)
    }
}

} // verus!

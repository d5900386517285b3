pub mod abstract_factory;
pub mod adapter;
pub mod builder;
pub mod command;
pub mod fold;
pub mod interpreter;
pub mod newtype;
pub mod strategy;
pub mod visitor;

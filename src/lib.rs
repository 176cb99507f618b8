//! Trees of markup nodes (elements with attributes and children, and text
//! leaves), folds over them through processors, and a writer that turns them
//! into escaped markup.

use vstd::prelude::*;

pub mod attributes;
pub mod dom_node;
pub mod processors;
pub mod html_writer;
pub mod tags;

pub use attributes::{AttributeValue, KeyValue};
pub use dom_node::{DomNode, DomValue};
pub use html_writer::{HtmlWriter, LimitedSink, Sink};
pub use processors::{ChildCounter, DomNodeProcessor, DomNodes};

//! Render-pass attachment operations and subpass contents.

use vstd::prelude::*;

use crate::error::ConvError;
use crate::vk;

verus! {

/// The internal attachment load operation.
#[derive(Clone, Copy, Debug, PartialEq, Eq, Structural)]
pub enum AttachmentLoadOp {
    Load,
    Clear,
    DontCare,
}

pub open spec fn spec_map_attachment_load_op(op: u32) -> Result<AttachmentLoadOp, ConvError> {
    if op == vk::VK_ATTACHMENT_LOAD_OP_LOAD {
        Ok(AttachmentLoadOp::Load)
    } else if op == vk::VK_ATTACHMENT_LOAD_OP_CLEAR {
        Ok(AttachmentLoadOp::Clear)
    } else if op == vk::VK_ATTACHMENT_LOAD_OP_DONT_CARE {
        Ok(AttachmentLoadOp::DontCare)
    } else {
        Err(ConvError::InvalidInput)
    }
}

/// Translate an external attachment-load-operation code; any code outside
/// the table is invalid input.
pub fn map_attachment_load_op(op: u32) -> (r: Result<AttachmentLoadOp, ConvError>)
    ensures
        r == spec_map_attachment_load_op(op),
{
    if op == vk::VK_ATTACHMENT_LOAD_OP_LOAD {
        Ok(AttachmentLoadOp::Load)
    } else if op == vk::VK_ATTACHMENT_LOAD_OP_CLEAR {
        Ok(AttachmentLoadOp::Clear)
    } else if op == vk::VK_ATTACHMENT_LOAD_OP_DONT_CARE {
        Ok(AttachmentLoadOp::DontCare)
    } else {
        Err(ConvError::InvalidInput)
    }
}

/// The internal attachment store operation.
#[derive(Clone, Copy, Debug, PartialEq, Eq, Structural)]
pub enum AttachmentStoreOp {
    Store,
    DontCare,
}

pub open spec fn spec_map_attachment_store_op(op: u32) -> Result<AttachmentStoreOp, ConvError> {
    if op == vk::VK_ATTACHMENT_STORE_OP_STORE {
        Ok(AttachmentStoreOp::Store)
    } else if op == vk::VK_ATTACHMENT_STORE_OP_DONT_CARE {
        Ok(AttachmentStoreOp::DontCare)
    } else {
        Err(ConvError::InvalidInput)
    }
}

/// Translate an external attachment-store-operation code; any code outside
/// the table is invalid input.
pub fn map_attachment_store_op(op: u32) -> (r: Result<AttachmentStoreOp, ConvError>)
    ensures
        r == spec_map_attachment_store_op(op),
{
    if op == vk::VK_ATTACHMENT_STORE_OP_STORE {
        Ok(AttachmentStoreOp::Store)
    } else if op == vk::VK_ATTACHMENT_STORE_OP_DONT_CARE {
        Ok(AttachmentStoreOp::DontCare)
    } else {
        Err(ConvError::InvalidInput)
    }
}

/// How the commands of a subpass are provided.
#[derive(Clone, Copy, Debug, PartialEq, Eq, Structural)]
pub enum SubpassContents {
    Inline,
    SecondaryBuffers,
}

pub open spec fn spec_map_subpass_contents(contents: u32) -> Result<SubpassContents, ConvError> {
    if contents == vk::VK_SUBPASS_CONTENTS_INLINE {
        Ok(SubpassContents::Inline)
    } else if contents == vk::VK_SUBPASS_CONTENTS_SECONDARY_COMMAND_BUFFERS {
        Ok(SubpassContents::SecondaryBuffers)
    } else {
        Err(ConvError::InvalidInput)
    }
}

/// Translate an external subpass-contents code; any code outside the table
/// is invalid input.
pub fn map_subpass_contents(contents: u32) -> (r: Result<SubpassContents, ConvError>)
    ensures
        r == spec_map_subpass_contents(contents),
{
    if contents == vk::VK_SUBPASS_CONTENTS_INLINE {
        Ok(SubpassContents::Inline)
    } else if contents == vk::VK_SUBPASS_CONTENTS_SECONDARY_COMMAND_BUFFERS {
        Ok(SubpassContents::SecondaryBuffers)
    } else {
        Err(ConvError::InvalidInput)
    }
}

} // verus!

//! Presentational widgets for a utility-class CSS framework.
//!
//! Every widget takes a record of typed options and yields a markup tree
//! whose tags, attribute names and class tokens are fixed by the widget's
//! contract.
#![allow(non_snake_case)]
#![allow(unused_variables)]

pub mod actions;
pub mod class_list;
pub mod feedback;
pub mod html;
pub mod markup;
pub mod text;

pub use actions::button::{BtnColor, BtnProps, BtnShape, BtnSize, BtnStyle, BtnType, Button};
pub use actions::drop_down::{
    Direction, DropDown, DropDown1, DropDownLink, DropDownLinkProps, DropDownProps,
};
pub use actions::modal::{
    DialogType, Modal, ModalAction, ModalActionProps, ModalBody, ModalBodyProps, ModalProps,
    Modal_1,
};
pub use feedback::loading::{Loading, LoadingColor, LoadingProps, LoadingSize, LoadingStyle};
pub use feedback::progress::{Progress, ProgressColor, ProgressProps, RadialProgress};

use vstd::prelude::*;

use crate::observable::Observable;
use crate::observable::ReverseError;

verus! {

// Every scalar leaf kind reflects as itself: the reflection of a
// primitive is the primitive, and both conversion directions are the
// identity. A primitive is wrapped in a reactive cell exactly once, at
// the point where it is a field of an aggregate or an element of a
// container, never redundantly at the primitive level itself.

impl Observable for char {
    type Reflection = char;

    type Model = char;

    open spec fn model(self) -> char {
        self
    }

    open spec fn reflection_model(r: char) -> char {
        r
    }

    open spec fn reverse_supported() -> bool {
        true
    }

    fn into_observable(self) -> (r: char) {
        self
    }

    fn from_observable(r: char) -> (x: Result<char, ReverseError>) {
        Ok(r)
    }
}

impl Observable for bool {
    type Reflection = bool;

    type Model = bool;

    open spec fn model(self) -> bool {
        self
    }

    open spec fn reflection_model(r: bool) -> bool {
        r
    }

    open spec fn reverse_supported() -> bool {
        true
    }

    fn into_observable(self) -> (r: bool) {
        self
    }

    fn from_observable(r: bool) -> (x: Result<bool, ReverseError>) {
        Ok(r)
    }
}

impl Observable for isize {
    type Reflection = isize;

    type Model = isize;

    open spec fn model(self) -> isize {
        self
    }

    open spec fn reflection_model(r: isize) -> isize {
        r
    }

    open spec fn reverse_supported() -> bool {
        true
    }

    fn into_observable(self) -> (r: isize) {
        self
    }

    fn from_observable(r: isize) -> (x: Result<isize, ReverseError>) {
        Ok(r)
    }
}

impl Observable for i8 {
    type Reflection = i8;

    type Model = i8;

    open spec fn model(self) -> i8 {
        self
    }

    open spec fn reflection_model(r: i8) -> i8 {
        r
    }

    open spec fn reverse_supported() -> bool {
        true
    }

    fn into_observable(self) -> (r: i8) {
        self
    }

    fn from_observable(r: i8) -> (x: Result<i8, ReverseError>) {
        Ok(r)
    }
}

impl Observable for i16 {
    type Reflection = i16;

    type Model = i16;

    open spec fn model(self) -> i16 {
        self
    }

    open spec fn reflection_model(r: i16) -> i16 {
        r
    }

    open spec fn reverse_supported() -> bool {
        true
    }

    fn into_observable(self) -> (r: i16) {
        self
    }

    fn from_observable(r: i16) -> (x: Result<i16, ReverseError>) {
        Ok(r)
    }
}

impl Observable for i32 {
    type Reflection = i32;

    type Model = i32;

    open spec fn model(self) -> i32 {
        self
    }

    open spec fn reflection_model(r: i32) -> i32 {
        r
    }

    open spec fn reverse_supported() -> bool {
        true
    }

    fn into_observable(self) -> (r: i32) {
        self
    }

    fn from_observable(r: i32) -> (x: Result<i32, ReverseError>) {
        Ok(r)
    }
}

impl Observable for i64 {
    type Reflection = i64;

    type Model = i64;

    open spec fn model(self) -> i64 {
        self
    }

    open spec fn reflection_model(r: i64) -> i64 {
        r
    }

    open spec fn reverse_supported() -> bool {
        true
    }

    fn into_observable(self) -> (r: i64) {
        self
    }

    fn from_observable(r: i64) -> (x: Result<i64, ReverseError>) {
        Ok(r)
    }
}

impl Observable for i128 {
    type Reflection = i128;

    type Model = i128;

    open spec fn model(self) -> i128 {
        self
    }

    open spec fn reflection_model(r: i128) -> i128 {
        r
    }

    open spec fn reverse_supported() -> bool {
        true
    }

    fn into_observable(self) -> (r: i128) {
        self
    }

    fn from_observable(r: i128) -> (x: Result<i128, ReverseError>) {
        Ok(r)
    }
}

impl Observable for usize {
    type Reflection = usize;

    type Model = usize;

    open spec fn model(self) -> usize {
        self
    }

    open spec fn reflection_model(r: usize) -> usize {
        r
    }

    open spec fn reverse_supported() -> bool {
        true
    }

    fn into_observable(self) -> (r: usize) {
        self
    }

    fn from_observable(r: usize) -> (x: Result<usize, ReverseError>) {
        Ok(r)
    }
}

impl Observable for u8 {
    type Reflection = u8;

    type Model = u8;

    open spec fn model(self) -> u8 {
        self
    }

    open spec fn reflection_model(r: u8) -> u8 {
        r
    }

    open spec fn reverse_supported() -> bool {
        true
    }

    fn into_observable(self) -> (r: u8) {
        self
    }

    fn from_observable(r: u8) -> (x: Result<u8, ReverseError>) {
        Ok(r)
    }
}

impl Observable for u16 {
    type Reflection = u16;

    type Model = u16;

    open spec fn model(self) -> u16 {
        self
    }

    open spec fn reflection_model(r: u16) -> u16 {
        r
    }

    open spec fn reverse_supported() -> bool {
        true
    }

    fn into_observable(self) -> (r: u16) {
        self
    }

    fn from_observable(r: u16) -> (x: Result<u16, ReverseError>) {
        Ok(r)
    }
}

impl Observable for u32 {
    type Reflection = u32;

    type Model = u32;

    open spec fn model(self) -> u32 {
        self
    }

    open spec fn reflection_model(r: u32) -> u32 {
        r
    }

    open spec fn reverse_supported() -> bool {
        true
    }

    fn into_observable(self) -> (r: u32) {
        self
    }

    fn from_observable(r: u32) -> (x: Result<u32, ReverseError>) {
        Ok(r)
    }
}

impl Observable for u64 {
    type Reflection = u64;

    type Model = u64;

    open spec fn model(self) -> u64 {
        self
    }

    open spec fn reflection_model(r: u64) -> u64 {
        r
    }

    open spec fn reverse_supported() -> bool {
        true
    }

    fn into_observable(self) -> (r: u64) {
        self
    }

    fn from_observable(r: u64) -> (x: Result<u64, ReverseError>) {
        Ok(r)
    }
}

impl Observable for u128 {
    type Reflection = u128;

    type Model = u128;

    open spec fn model(self) -> u128 {
        self
    }

    open spec fn reflection_model(r: u128) -> u128 {
        r
    }

    open spec fn reverse_supported() -> bool {
        true
    }

    fn into_observable(self) -> (r: u128) {
        self
    }

    fn from_observable(r: u128) -> (x: Result<u128, ReverseError>) {
        Ok(r)
    }
}

impl Observable for String {
    type Reflection = String;

    type Model = String;

    open spec fn model(self) -> String {
        self
    }

    open spec fn reflection_model(r: String) -> String {
        r
    }

    open spec fn reverse_supported() -> bool {
        true
    }

    fn into_observable(self) -> (r: String) {
        self
    }

    fn from_observable(r: String) -> (x: Result<String, ReverseError>) {
        Ok(r)
    }
}

} // verus!

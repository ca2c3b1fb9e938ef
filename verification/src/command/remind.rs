//! Adding a reminder.
use vstd::prelude::*;
use crate::apifs_object::{ApifsObject, ApifsObjectView, reminder_views};
use crate::reminder::{Reminder, ReminderView};

verus! {

/// The stored data with the reminder `r` added after the stored ones.
pub open spec fn reminded(o: ApifsObjectView, r: ReminderView) -> ApifsObjectView {
    ApifsObjectView { reminders: o.reminders.push(r), notes: o.notes }
}

/// The command that stores a new reminder.
pub struct Remind {
    pub reminder: Reminder,
}

impl Remind {
    pub fn new(reminder: Reminder) -> (r: Self)
        ensures
            r.reminder == reminder,
    {
        Remind { reminder }
    }

    /// Adds the reminder after the stored ones.
    pub fn apply(self, data: &mut ApifsObject)
        ensures
            final(data).reminders@ == old(data).reminders@.push(self.reminder),
            final(data).notes@ == old(data).notes@,
            final(data)@ == reminded(old(data)@, self.reminder@),
    {
        let ghost r = self.reminder;
        data.reminders.push(self.reminder);
        assert(reminder_views(data.reminders@) =~= reminder_views(old(data).reminders@).push(r@));
    }
}

} // verus!
